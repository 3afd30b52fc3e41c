use voicegate::language::{
    contains_west, language_plan, resolve_dialect, resource_name, Dialect, LanguagePlan,
};

#[test]
fn explicit_override_takes_precedence() {
    assert_eq!(resolve_dialect(Some(true), "f1"), Dialect::Kansai);
    assert_eq!(resolve_dialect(Some(false), "west_voice"), Dialect::Standard);
}

#[test]
fn heuristic_fallback_on_voice_id() {
    assert_eq!(resolve_dialect(None, "akari_west"), Dialect::Kansai);
    assert_eq!(resolve_dialect(None, "f1"), Dialect::Standard);
    assert_eq!(resolve_dialect(None, "westside"), Dialect::Kansai);
    assert_eq!(resolve_dialect(None, "wes"), Dialect::Standard);
}

#[test]
fn contains_west_edges() {
    assert!(contains_west("west"));
    assert!(contains_west("xxwestxx"));
    assert!(!contains_west(""));
    assert!(!contains_west("wewes"));
    assert!(!contains_west("West"));
}

#[test]
fn plan_keeps_only_same_loaded_dialect() {
    assert_eq!(language_plan(Some(Dialect::Standard), Dialect::Standard), LanguagePlan::Keep);
    assert_eq!(language_plan(Some(Dialect::Kansai), Dialect::Kansai), LanguagePlan::Keep);
    assert_eq!(language_plan(Some(Dialect::Standard), Dialect::Kansai), LanguagePlan::Swap);
    assert_eq!(language_plan(None, Dialect::Standard), LanguagePlan::Swap);
}

#[test]
fn resource_names() {
    assert_eq!(resource_name(Dialect::Standard), "Lang\\standard");
    assert_eq!(resource_name(Dialect::Kansai), "Lang\\standard_kansai");
}

use voicegate::voices::{
    get, init, list, Color, StyleDefinition, Styles, VoiceDicInfo, VoiceEntry,
};

fn info(name: &str, dialect: &str) -> VoiceDicInfo {
    VoiceDicInfo {
        format: "AITalkVoiceDicInfo".to_string(),
        samples_per_sec: 44100,
        language: "Japanese".to_string(),
        dialect: dialect.to_string(),
        name: name.to_string(),
        gender: "Female".to_string(),
        background_color: Color { r: 0xFF, g: 0x00, b: 0xAA, a: 0x10 },
        styles: Styles {
            style_definitions: Some(vec![
                StyleDefinition {
                    name: "N".to_string(),
                    display_name: "Normal".to_string(),
                    color: Color { r: 1, g: 2, b: 3, a: 4 },
                },
            ]),
        },
        feature_id: 1,
        hash_code_string: "h".to_string(),
        version_string: "1".to_string(),
        ai_talk_version_string: "5".to_string(),
        ng_words: vec![],
    }
}

#[test]
fn color_to_hex_string_renders_rgba_upper_case() {
    let c = Color { r: 0xFF, g: 0x00, b: 0xAA, a: 0x10 };
    assert_eq!(c.to_hex_string(), "#FF00AA10");
    let c2 = Color { r: 0, g: 1, b: 0x9C, a: 0xDE };
    assert_eq!(c2.to_hex_string(), "#00019CDE");
}

#[test]
fn listing_renders_icon_and_descriptor_fields() {
    let set = init(vec![
        VoiceEntry {
            name: "f1".to_string(),
            // "Man" encodes to "TWFu" in standard base64.
            icon: vec![b'M', b'a', b'n'],
            info: info("F One", "Standard"),
        },
    ]);
    let voices = list(&set);
    assert_eq!(voices.len(), 1);
    assert_eq!(voices[0].id, "f1");
    assert_eq!(voices[0].name, "F One");
    assert_eq!(voices[0].icon, "TWFu");
    assert_eq!(voices[0].dialect, "Standard");
    assert_eq!(voices[0].gender, "Female");
    assert_eq!(voices[0].background_color, "#FF00AA10");
}

#[test]
fn listing_pads_partial_base64_groups() {
    let set = init(vec![
        VoiceEntry { name: "a".to_string(), icon: vec![b'M'], info: info("A", "Standard") },
    ]);
    let voices = list(&set);
    assert_eq!(voices[0].icon, "TQ==");
}

#[test]
fn get_keeps_construction_order() {
    let set = init(vec![
        VoiceEntry { name: "a".to_string(), icon: vec![], info: info("A", "Standard") },
        VoiceEntry { name: "b".to_string(), icon: vec![], info: info("B", "Kansai") },
    ]);
    let entries = get(&set);
    assert_eq!(entries.len(), 2);
    assert_eq!(entries[0].name, "a");
    assert_eq!(entries[1].name, "b");
}

//! Language cache: which language resource a request needs, whether the one
//! currently loaded must be swapped, and the single-slot record of what is
//! loaded.
//!
//! Dialect resolution gives an explicit per-request override precedence; when
//! the request carries none, a voice id containing `"west"` selects the
//! regional dialect.

use vstd::prelude::*;

verus! {

/// The language resources the engine can load.
#[derive(Clone, Copy, Debug, PartialEq, Eq, Structural)]
pub enum Dialect {
    Standard,
    Kansai,
}

/// What the orchestrator must do before a request: keep the loaded resource,
/// or unload it and load another.
#[derive(Clone, Copy, Debug, PartialEq, Eq, Structural)]
pub enum LanguagePlan {
    Keep,
    Swap,
}

/// The pattern occurs in `s` starting at position `i`.
pub open spec fn spec_contains_at(s: Seq<char>, pat: Seq<char>, i: int) -> bool {
    0 <= i && i + pat.len() <= s.len() && s.subrange(i, i + pat.len()) == pat
}

/// The pattern occurs somewhere in `s`.
pub open spec fn spec_contains(s: Seq<char>, pat: Seq<char>) -> bool {
    exists|i: int| spec_contains_at(s, pat, i)
}

/// The marker in a voice id that selects the regional dialect.
pub open spec fn west_marker() -> Seq<char> {
    seq!['w', 'e', 's', 't']
}

/// Whether the voice id contains the substring `"west"`.
pub fn contains_west(s: &str) -> (r: bool)
    ensures
        r == spec_contains(s@, west_marker()),
{
    let n = s.unicode_len();
    if n < 4 {
        assert(forall|i: int| !spec_contains_at(s@, west_marker(), i));
        return false;
    }
    let mut i: usize = 0;
    while i <= n - 4
        invariant
            4 <= n == s@.len(),
            i <= n - 3,
            forall|j: int| 0 <= j < i ==> !spec_contains_at(s@, west_marker(), j),
        decreases n - i,
    {
        if s.get_char(i) == 'w' && s.get_char(i + 1) == 'e' && s.get_char(i + 2) == 's'
            && s.get_char(i + 3) == 't' {
            proof {
                assert(s@.subrange(i as int, i as int + 4) =~= west_marker());
                assert(spec_contains_at(s@, west_marker(), i as int));
            }
            return true;
        }
        proof {
            assert(!spec_contains_at(s@, west_marker(), i as int));
        }
        i = i + 1;
    }
    assert(forall|j: int| j >= i ==> !spec_contains_at(s@, west_marker(), j));
    false
}

/// The dialect a request resolves to: the explicit override when present,
/// otherwise the voice-id marker decides.
pub open spec fn spec_resolve_dialect(is_kansai: Option<bool>, voice_id: Seq<char>) -> Dialect {
    match is_kansai {
        Some(true) => Dialect::Kansai,
        Some(false) => Dialect::Standard,
        None => if spec_contains(voice_id, west_marker()) {
            Dialect::Kansai
        } else {
            Dialect::Standard
        },
    }
}

/// Resolve the dialect of a request.
pub fn resolve_dialect(is_kansai: Option<bool>, voice_id: &str) -> (r: Dialect)
    ensures
        r == spec_resolve_dialect(is_kansai, voice_id@),
{
    match is_kansai {
        Some(true) => Dialect::Kansai,
        Some(false) => Dialect::Standard,
        None => if contains_west(voice_id) {
            Dialect::Kansai
        } else {
            Dialect::Standard
        },
    }
}

/// The pure decision of the language cache: a request whose resolved dialect
/// is the one already loaded needs no engine call at all; anything else needs
/// an unload followed by a load.
pub open spec fn spec_language_plan(current: Option<Dialect>, desired: Dialect) -> LanguagePlan {
    if current == Some(desired) {
        LanguagePlan::Keep
    } else {
        LanguagePlan::Swap
    }
}

/// Decide whether the loaded language resource must be swapped.
pub fn language_plan(current: Option<Dialect>, desired: Dialect) -> (r: LanguagePlan)
    ensures
        r == spec_language_plan(current, desired),
{
    match current {
        Some(c) => if c == desired {
            LanguagePlan::Keep
        } else {
            LanguagePlan::Swap
        },
        None => LanguagePlan::Swap,
    }
}

/// The resource path the engine loads for a dialect.
pub fn resource_name(d: Dialect) -> (r: &'static str)
    ensures
        d == Dialect::Standard ==> r@ == "Lang\\standard"@,
        d == Dialect::Kansai ==> r@ == "Lang\\standard_kansai"@,
{
    match d {
        Dialect::Standard => "Lang\\standard",
        Dialect::Kansai => "Lang\\standard_kansai",
    }
}

} // verus!

//! Voice metadata catalogue: per-voice descriptor fields and icon image,
//! built once at start-up from values extracted out of the voice database,
//! and the client-facing listing derived from it.

use vstd::prelude::*;
use crate::codec::{base64_encode, base64_of};
use crate::model::Voice;

verus! {

/// An RGBA colour from a voice's descriptor.
#[derive(Clone, Copy, Debug, PartialEq, Eq, Structural)]
pub struct Color {
    pub r: u8,
    pub g: u8,
    pub b: u8,
    pub a: u8,
}

/// The character for one hexadecimal digit, upper case.
pub open spec fn hex_digit_char(d: int) -> char
    recommends
        0 <= d < 16,
{
    if d < 10 {
        ((48 + d) as u8) as char
    } else {
        ((55 + d) as u8) as char
    }
}

/// Two upper-case hexadecimal digits of a byte.
pub open spec fn hex_byte(x: u8) -> Seq<char> {
    seq![hex_digit_char(x as int / 16), hex_digit_char(x as int % 16)]
}

/// The `#RRGGBBAA` rendering of a colour.
pub open spec fn spec_hex_color(c: Color) -> Seq<char> {
    seq!['#'] + hex_byte(c.r) + hex_byte(c.g) + hex_byte(c.b) + hex_byte(c.a)
}

fn append_hex_digit(s: &mut String, d: u8)
    requires
        d < 16,
    ensures
        final(s)@ == old(s)@ + seq![hex_digit_char(d as int)],
{
    proof {
        reveal_strlit("0");
        reveal_strlit("1");
        reveal_strlit("2");
        reveal_strlit("3");
        reveal_strlit("4");
        reveal_strlit("5");
        reveal_strlit("6");
        reveal_strlit("7");
        reveal_strlit("8");
        reveal_strlit("9");
        reveal_strlit("A");
        reveal_strlit("B");
        reveal_strlit("C");
        reveal_strlit("D");
        reveal_strlit("E");
        reveal_strlit("F");
    }
    match d {
        0 => s.append("0"),
        1 => s.append("1"),
        2 => s.append("2"),
        3 => s.append("3"),
        4 => s.append("4"),
        5 => s.append("5"),
        6 => s.append("6"),
        7 => s.append("7"),
        8 => s.append("8"),
        9 => s.append("9"),
        10 => s.append("A"),
        11 => s.append("B"),
        12 => s.append("C"),
        13 => s.append("D"),
        14 => s.append("E"),
        _ => s.append("F"),
    }
    assert(final(s)@ =~= old(s)@ + seq![hex_digit_char(d as int)]);
}

fn append_hex_byte(s: &mut String, x: u8)
    ensures
        final(s)@ == old(s)@ + hex_byte(x),
{
    append_hex_digit(s, x / 16);
    append_hex_digit(s, x % 16);
    assert(final(s)@ =~= old(s)@ + hex_byte(x));
}

impl Color {
    /// Render the colour as `#RRGGBBAA`, upper case.
    pub fn to_hex_string(&self) -> (s: String)
        ensures
            s@ == spec_hex_color(*self),
    {
        proof {
            reveal_strlit("#");
        }
        let mut s = String::from_str("#");
        append_hex_byte(&mut s, self.r);
        append_hex_byte(&mut s, self.g);
        append_hex_byte(&mut s, self.b);
        append_hex_byte(&mut s, self.a);
        assert(s@ =~= spec_hex_color(*self));
        s
    }
}

/// One named style of a voice.
#[derive(Clone, Debug)]
pub struct StyleDefinition {
    pub name: String,
    pub display_name: String,
    pub color: Color,
}

/// The styles block of a voice descriptor.
#[derive(Clone, Debug)]
pub struct Styles {
    pub style_definitions: Option<Vec<StyleDefinition>>,
}

/// A voice's decoded descriptor.
#[derive(Clone, Debug)]
pub struct VoiceDicInfo {
    pub format: String,
    pub samples_per_sec: u32,
    pub language: String,
    pub dialect: String,
    pub name: String,
    pub gender: String,
    pub background_color: Color,
    pub styles: Styles,
    pub feature_id: u32,
    pub hash_code_string: String,
    pub version_string: String,
    pub ai_talk_version_string: String,
    pub ng_words: Vec<String>,
}

/// One installed voice: its id (the voice database directory name), its icon
/// image and its descriptor.
#[derive(Clone, Debug)]
pub struct VoiceEntry {
    pub name: String,
    pub icon: Vec<u8>,
    pub info: VoiceDicInfo,
}

/// The catalogue of all installed voices.
#[derive(Clone, Debug)]
pub struct VoiceSet {
    pub entries: Vec<VoiceEntry>,
}

/// Build the catalogue from the extracted per-voice data.
pub fn init(entries: Vec<VoiceEntry>) -> (r: VoiceSet)
    ensures
        r.entries == entries,
{
    VoiceSet { entries }
}

/// All entries of the catalogue, in construction order.
pub fn get(set: &VoiceSet) -> (r: &Vec<VoiceEntry>)
    ensures
        r@ == set.entries@,
{
    &set.entries
}

/// The catalogue entry a client listing is owed for one voice.
pub open spec fn spec_listing_entry(e: VoiceEntry, v: Voice) -> bool {
    &&& v.id == e.name
    &&& v.name == e.info.name
    &&& v.icon@ == base64_of(e.icon@)
    &&& v.dialect == e.info.dialect
    &&& v.gender == e.info.gender
    &&& v.background_color@ == spec_hex_color(e.info.background_color)
}

/// The client-facing listing: one entry per installed voice, in catalogue
/// order, with the icon bytes rendered as text and the background colour as
/// `#RRGGBBAA`.
pub fn list(set: &VoiceSet) -> (r: Vec<Voice>)
    requires
        forall|i: int|
            0 <= i < set.entries@.len() ==> 4 * (#[trigger] set.entries@[i]).icon@.len()
                <= usize::MAX,
    ensures
        r@.len() == set.entries@.len(),
        forall|i: int|
            0 <= i < r@.len() ==> spec_listing_entry(set.entries@[i], #[trigger] r@[i]),
{
    let n = set.entries.len();
    let mut out: Vec<Voice> = Vec::new();
    let mut i: usize = 0;
    while i < n
        invariant
            n == set.entries@.len(),
            i <= n,
            out@.len() == i,
            forall|k: int|
                0 <= k < set.entries@.len() ==> 4 * (#[trigger] set.entries@[k]).icon@.len()
                    <= usize::MAX,
            forall|k: int|
                0 <= k < i ==> spec_listing_entry(set.entries@[k], #[trigger] out@[k]),
        decreases n - i,
    {
        let e = &set.entries[i];
        out.push(
            Voice {
                id: e.name.clone(),
                name: e.info.name.clone(),
                icon: base64_encode(&e.icon),
                dialect: e.info.dialect.clone(),
                gender: e.info.gender.clone(),
                background_color: e.info.background_color.to_hex_string(),
            },
        );
        i = i + 1;
    }
    out
}

} // verus!

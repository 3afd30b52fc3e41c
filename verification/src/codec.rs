//! Byte-level encodings at the engine boundary: the engine's fixed-encoding
//! voice names and the textual encoding of icon bytes for clients.

use vstd::prelude::*;
use vstd::string::is_ascii;

verus! {

/// Width in bytes of the engine's fixed voice-name field.
pub const VOICE_NAME_LEN: usize = 80;

/// What `encoding_rs::SHIFT_JIS.encode` returns for a given character
/// sequence.
pub uninterp spec fn sjis_of(s: Seq<char>) -> Seq<u8>;

/// Relies on encoding_rs: `SHIFT_JIS.encode` computes the encoded bytes from
/// the input characters alone; it returns an all-ASCII input unchanged, byte
/// for byte, and encodes an empty input to an empty byte string.
#[verifier::external_body]
pub(crate) fn sjis_encode(s: &str) -> (r: Vec<u8>)
    ensures
        r@ == sjis_of(s@),
        s@.len() == 0 ==> r@.len() == 0,
        is_ascii(s) ==> r@ == Seq::new(s@.len(), |i: int| s@[i] as u8),
{
    encoding_rs::SHIFT_JIS.encode(s).0.into_owned()
}

/// What `base64::Engine::encode` returns, with the standard padded alphabet,
/// for a given byte sequence.
pub uninterp spec fn base64_of(b: Seq<u8>) -> Seq<char>;

/// Relies on base64: `Engine::encode` with the standard padded alphabet
/// computes the text from the input bytes alone and emits four characters per
/// started three-byte group. The length bound keeps the output size, which
/// the engine computes eagerly, within `usize`.
#[verifier::external_body]
pub(crate) fn base64_encode(b: &Vec<u8>) -> (r: String)
    requires
        4 * b@.len() <= usize::MAX,
    ensures
        r@ == base64_of(b@),
        r@.len() == 4 * (b@.len() / 3) + if b@.len() % 3 == 0 {
            0int
        } else {
            4int
        },
{
    base64::Engine::encode(&base64::prelude::BASE64_STANDARD, b)
}

/// Whether two byte vectors hold the same bytes.
pub fn bytes_eq(a: &Vec<u8>, b: &Vec<u8>) -> (r: bool)
    ensures
        r == (a@ == b@),
{
    if a.len() != b.len() {
        return false;
    }
    let n = a.len();
    let mut i: usize = 0;
    while i < n
        invariant
            n == a@.len() == b@.len(),
            i <= n,
            forall|j: int| 0 <= j < i ==> a@[j] == b@[j],
        decreases n - i,
    {
        if a[i] != b[i] {
            return false;
        }
        i = i + 1;
    }
    proof {
        assert(a@ =~= b@);
    }
    true
}

/// The engine's fixed-width form of an encoded name: truncated to the field
/// width, or padded with trailing zero bytes up to it.
pub open spec fn spec_fixed_name(b: Seq<u8>) -> Seq<u8> {
    if b.len() >= VOICE_NAME_LEN {
        b.subrange(0, VOICE_NAME_LEN as int)
    } else {
        b + Seq::new((VOICE_NAME_LEN - b.len()) as nat, |i: int| 0u8)
    }
}

/// Lay an encoded name into the engine's fixed-width name field.
pub fn fixed_name(b: &Vec<u8>) -> (r: Vec<u8>)
    ensures
        r@ == spec_fixed_name(b@),
        r@.len() == VOICE_NAME_LEN,
{
    let mut out: Vec<u8> = Vec::new();
    let take = if b.len() >= VOICE_NAME_LEN {
        VOICE_NAME_LEN
    } else {
        b.len()
    };
    let mut i: usize = 0;
    while i < take
        invariant
            take <= b@.len(),
            take <= VOICE_NAME_LEN,
            b@.len() >= VOICE_NAME_LEN ==> take == VOICE_NAME_LEN,
            b@.len() < VOICE_NAME_LEN ==> take == b@.len(),
            i <= take,
            out@ =~= b@.subrange(0, i as int),
        decreases take - i,
    {
        out.push(b[i]);
        i = i + 1;
    }
    while i < VOICE_NAME_LEN
        invariant
            take <= VOICE_NAME_LEN,
            take <= b@.len(),
            b@.len() >= VOICE_NAME_LEN ==> take == VOICE_NAME_LEN,
            b@.len() < VOICE_NAME_LEN ==> take == b@.len(),
            take <= i <= VOICE_NAME_LEN,
            out@.len() == i,
            out@.subrange(0, take as int) =~= b@.subrange(0, take as int),
            forall|j: int| take <= j < i ==> out@[j] == 0u8,
        decreases VOICE_NAME_LEN - i,
    {
        out.push(0);
        i = i + 1;
    }
    proof {
        assert forall|k: int| 0 <= k < take implies out@[k] == b@[k] by {
            assert(out@.subrange(0, take as int)[k] == b@.subrange(0, take as int)[k]);
        }
        assert(out@ =~= spec_fixed_name(b@));
    }
    out
}

/// The fixed-width engine name of a voice id: its encoded bytes laid into the
/// fixed-width field.
pub fn encode_voice_name(voice_id: &str) -> (r: Vec<u8>)
    ensures
        r@ == spec_fixed_name(sjis_of(voice_id@)),
        r@.len() == VOICE_NAME_LEN,
{
    let enc = sjis_encode(voice_id);
    fixed_name(&enc)
}

} // verus!

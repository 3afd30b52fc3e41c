//! Audio container encoding: wraps raw little-endian 16-bit mono PCM bytes
//! in a fixed 44-byte WAVE header whose size fields are computed from the
//! actual payload length.

use vstd::prelude::*;

verus! {

/// Sample rate declared in the container; the engine produces PCM at this rate.
pub const SAMPLE_RATE: u32 = 44100;

/// Size of the fixed container header in bytes.
pub const WAV_HEADER_LEN: usize = 44;

/// Little-endian byte decomposition of a 16-bit value.
pub open spec fn le16(x: u16) -> Seq<u8> {
    seq![(x % 256) as u8, (x / 256) as u8]
}

/// Little-endian byte decomposition of a 32-bit value.
pub open spec fn le32(x: u32) -> Seq<u8> {
    seq![
        (x % 256) as u8,
        ((x / 0x100) % 256) as u8,
        ((x / 0x10000) % 256) as u8,
        ((x / 0x1000000) % 256) as u8,
    ]
}

/// The value a 4-byte little-endian field denotes.
pub open spec fn le32_val(s: Seq<u8>) -> int
    recommends
        s.len() == 4,
{
    s[0] + 0x100 * s[1] + 0x10000 * s[2] + 0x1000000 * s[3]
}

/// The fixed 44-byte header for a data chunk of `data_len` bytes:
/// `"RIFF"`, total size minus 8, `"WAVE"`, a 16-byte PCM format chunk
/// (mono, 16-bit, `SAMPLE_RATE`, byte rate = rate * 2, block align = 2),
/// then `"data"` and the exact payload length.
pub open spec fn wav_header(data_len: u32) -> Seq<u8>
    recommends
        data_len + 36 <= u32::MAX,
{
    seq![0x52u8, 0x49u8, 0x46u8, 0x46u8]  // "RIFF"
     + le32((data_len + 36) as u32)
     + seq![0x57u8, 0x41u8, 0x56u8, 0x45u8]  // "WAVE"
     + seq![0x66u8, 0x6du8, 0x74u8, 0x20u8]  // "fmt "
     + le32(16) + le16(1) + le16(1) + le32(SAMPLE_RATE) + le32((SAMPLE_RATE * 2) as u32) + le16(2) + le16(
        16,
    ) + seq![0x64u8, 0x61u8, 0x74u8, 0x61u8]  // "data"
     + le32(data_len)
}

fn push_le16(out: &mut Vec<u8>, x: u16)
    ensures
        final(out)@ == old(out)@ + le16(x),
{
    out.push((x % 256) as u8);
    out.push((x / 256) as u8);
    assert(final(out)@ =~= old(out)@ + le16(x));
}

fn push_le32(out: &mut Vec<u8>, x: u32)
    ensures
        final(out)@ == old(out)@ + le32(x),
{
    out.push((x % 256) as u8);
    out.push(((x / 0x100) % 256) as u8);
    out.push(((x / 0x10000) % 256) as u8);
    out.push(((x / 0x1000000) % 256) as u8);
    assert(final(out)@ =~= old(out)@ + le32(x));
}

/// Wrap raw PCM payload bytes in the container: the fixed header followed by
/// the payload unchanged.
#[verifier::rlimit(100)]
pub fn encode_wav(pcm: Vec<u8>) -> (r: Vec<u8>)
    requires
        pcm@.len() + 44 <= u32::MAX,
    ensures
        r@ == wav_header(pcm@.len() as u32) + pcm@,
        r@.len() == 44 + pcm@.len(),
{
    let mut pcm = pcm;
    let data_len: u32 = pcm.len() as u32;
    let mut out: Vec<u8> = Vec::new();
    out.push(0x52);
    out.push(0x49);
    out.push(0x46);
    out.push(0x46);
    push_le32(&mut out, data_len + 36);
    out.push(0x57);
    out.push(0x41);
    out.push(0x56);
    out.push(0x45);
    out.push(0x66);
    out.push(0x6d);
    out.push(0x74);
    out.push(0x20);
    push_le32(&mut out, 16);
    push_le16(&mut out, 1);
    push_le16(&mut out, 1);
    push_le32(&mut out, SAMPLE_RATE);
    push_le32(&mut out, SAMPLE_RATE * 2);
    push_le16(&mut out, 2);
    push_le16(&mut out, 16);
    out.push(0x64);
    out.push(0x61);
    out.push(0x74);
    out.push(0x61);
    push_le32(&mut out, data_len);
    assert(out@ =~= wav_header(data_len));
    let ghost payload = pcm@;
    out.append(&mut pcm);
    assert(out@ =~= wav_header(data_len) + payload);
    out
}

/// Reading back a little-endian field returns the value that was written.
pub proof fn lemma_le32_roundtrip(x: u32)
    ensures
        le32_val(le32(x)) == x,
{
    assert(le32_val(le32(x)) == x) by {
        assert(x == x % 0x100 + 0x100 * ((x as int / 0x100) % 0x100) + 0x10000 * ((x as int
            / 0x10000) % 0x100) + 0x1000000 * (x as int / 0x1000000)) by (nonlinear_arith);
        assert((x as int / 0x1000000) % 0x100 == x as int / 0x1000000) by (nonlinear_arith);
    }
}

/// The encoded container starts with the four bytes `"RIFF"`, and the
/// declared data-chunk size (bytes 40..44) equals the PCM payload length.
pub proof fn lemma_wav_shape(pcm: Seq<u8>)
    requires
        pcm.len() + 44 <= u32::MAX,
    ensures
        (wav_header(pcm.len() as u32) + pcm).subrange(0, 4) =~= seq![0x52u8, 0x49u8, 0x46u8, 0x46u8],
        le32_val((wav_header(pcm.len() as u32) + pcm).subrange(40, 44)) == pcm.len(),
        (wav_header(pcm.len() as u32) + pcm).len() == 44 + pcm.len(),
{
    let n = pcm.len() as u32;
    let whole = wav_header(n) + pcm;
    assert(whole.subrange(0, 4) =~= seq![0x52u8, 0x49u8, 0x46u8, 0x46u8]);
    assert(whole.subrange(40, 44) =~= le32(n));
    lemma_le32_roundtrip(n);
}

} // verus!

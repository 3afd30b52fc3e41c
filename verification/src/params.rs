//! Parameter cache: one shared block of global synthesis parameters plus one
//! record per installed voice, keyed by the engine's fixed-encoding voice
//! name. Patching copies a request's parameters into the matching record and
//! the global slot; a request naming an unknown voice fails and leaves the
//! block untouched.

use vstd::prelude::*;
use crate::codec::{bytes_eq, encode_voice_name, sjis_of, spec_fixed_name, VOICE_NAME_LEN};
use crate::errors::TtsError;
use crate::model::Request;

verus! {

/// Per-voice parameter record of the engine's parameter block.
#[derive(Clone, Debug)]
pub struct SpeakerParam {
    /// Fixed-width engine-encoded voice name; the record's key.
    pub voice_name: Vec<u8>,
    pub speed: u32,
    pub pitch: u32,
    pub range: u32,
    pub pause_middle: i32,
    pub pause_long: i32,
    pub pause_sentence: i32,
}

/// Global slot of the engine's parameter block, with the engine-reported
/// buffer sizes and the registration state of the three callbacks.
#[derive(Clone, Debug)]
pub struct TtsParam {
    /// Fixed-width engine-encoded name of the voice the next job speaks with.
    pub voice_name: Vec<u8>,
    pub volume: u32,
    pub len_text_buf_bytes: u32,
    pub len_raw_buf_words: u32,
    pub text_callback: bool,
    pub raw_callback: bool,
    pub event_callback: bool,
}

/// The whole parameter block: the global slot plus the per-voice records.
#[derive(Clone, Debug)]
pub struct ParamBlock {
    pub global: TtsParam,
    pub speakers: Vec<SpeakerParam>,
}

/// A speaker record with the six request parameters copied in.
pub open spec fn spec_patched_speaker(sp: SpeakerParam, req: Request) -> SpeakerParam {
    SpeakerParam {
        speed: req.speed,
        pitch: req.pitch,
        range: req.range,
        pause_middle: req.pause_middle,
        pause_long: req.pause_long,
        pause_sentence: req.pause_sentence,
        ..sp
    }
}

/// How a successful patch for `req` relates the block after (`post`) to the
/// block before (`pre`): the one record matching the request's voice carries
/// the six request parameters, every other record is unchanged, and the
/// global slot carries the matched name, the request volume and the given
/// callback registrations, with the engine-reported buffer sizes kept.
pub open spec fn spec_patch_rel(
    pre: ParamBlock,
    post: ParamBlock,
    req: Request,
    text_cb: bool,
    raw_cb: bool,
    event_cb: bool,
) -> bool {
    &&& exists|i: int|
        {
            &&& 0 <= i < pre.speakers@.len()
            &&& (#[trigger] pre.speakers@[i]).voice_name@ == ParamBlock::spec_key_of(req.voice_id@)
            &&& post.speakers@ == pre.speakers@.update(
                i,
                spec_patched_speaker(pre.speakers@[i], req),
            )
            &&& post.global.voice_name@ == pre.speakers@[i].voice_name@
        }
    &&& post.global.volume == req.volume
    &&& post.global.text_callback == text_cb
    &&& post.global.raw_callback == raw_cb
    &&& post.global.event_callback == event_cb
    &&& post.global.len_text_buf_bytes == pre.global.len_text_buf_bytes
    &&& post.global.len_raw_buf_words == pre.global.len_raw_buf_words
}

/// A block differing from a patched one only in its callback registrations is
/// itself patched, with those registrations.
pub proof fn lemma_patch_rel_rearm(
    pre: ParamBlock,
    a: ParamBlock,
    b: ParamBlock,
    req: Request,
    t0: bool,
    r0: bool,
    e0: bool,
    t1: bool,
    r1: bool,
    e1: bool,
)
    requires
        spec_patch_rel(pre, a, req, t0, r0, e0),
        b.speakers@ == a.speakers@,
        b.global.voice_name@ == a.global.voice_name@,
        b.global.volume == a.global.volume,
        b.global.len_text_buf_bytes == a.global.len_text_buf_bytes,
        b.global.len_raw_buf_words == a.global.len_raw_buf_words,
        b.global.text_callback == t1,
        b.global.raw_callback == r1,
        b.global.event_callback == e1,
    ensures
        spec_patch_rel(pre, b, req, t1, r1, e1),
{
    let i = choose|i: int|
        {
            &&& 0 <= i < pre.speakers@.len()
            &&& (#[trigger] pre.speakers@[i]).voice_name@ == ParamBlock::spec_key_of(req.voice_id@)
            &&& a.speakers@ == pre.speakers@.update(
                i,
                spec_patched_speaker(pre.speakers@[i], req),
            )
            &&& a.global.voice_name@ == pre.speakers@[i].voice_name@
        };
    assert(0 <= i < pre.speakers@.len() && (#[trigger] pre.speakers@[i]).voice_name@
        == ParamBlock::spec_key_of(req.voice_id@) && b.speakers@ == pre.speakers@.update(
        i,
        spec_patched_speaker(pre.speakers@[i], req),
    ) && b.global.voice_name@ == pre.speakers@[i].voice_name@);
}

impl ParamBlock {
    /// Well-formedness: every record's key fills the fixed-width name field,
    /// and there is exactly one record per installed voice.
    pub open spec fn wf(self) -> bool {
        &&& forall|i: int|
            0 <= i < self.speakers@.len() ==> (#[trigger] self.speakers@[i]).voice_name@.len()
                == VOICE_NAME_LEN
        &&& forall|i: int, j: int|
            0 <= i < j < self.speakers@.len() ==> self.speakers@[i].voice_name@
                != self.speakers@[j].voice_name@
    }

    /// Some record carries this engine-encoded name.
    pub open spec fn spec_has_voice(self, name: Seq<u8>) -> bool {
        exists|i: int|
            0 <= i < self.speakers@.len() && (#[trigger] self.speakers@[i]).voice_name@ == name
    }

    /// The engine-encoded name the block's lookup uses for a voice id.
    pub open spec fn spec_key_of(voice_id: Seq<char>) -> Seq<u8> {
        spec_fixed_name(sjis_of(voice_id))
    }

    /// Copy the request's parameters into the record matching its voice and
    /// into the global slot, deregistering all callbacks; fail with
    /// `VoiceNotFound`, changing nothing, when no record matches.
    pub fn patch(&mut self, req: &Request) -> (r: Result<(), TtsError>)
        requires
            old(self).wf(),
        ensures
            final(self).wf(),
            match r {
                Ok(()) => {
                    &&& old(self).spec_has_voice(Self::spec_key_of(req.voice_id@))
                    &&& spec_patch_rel(*old(self), *final(self), *req, false, false, false)
                },
                Err(e) => {
                    &&& !old(self).spec_has_voice(Self::spec_key_of(req.voice_id@))
                    &&& e == (TtsError::VoiceNotFound { voice_id: req.voice_id })
                    &&& *final(self) == *old(self)
                },
            },
    {
        let name = encode_voice_name(req.voice_id.as_str());
        let n = self.speakers.len();
        let mut i: usize = 0;
        while i < n
            invariant
                *self == *old(self),
                self.wf(),
                n == self.speakers@.len(),
                i <= n,
                name@ == Self::spec_key_of(req.voice_id@),
                forall|j: int|
                    0 <= j < i ==> (#[trigger] self.speakers@[j]).voice_name@ != name@,
            decreases n - i,
        {
            if bytes_eq(&self.speakers[i].voice_name, &name) {
                let ghost old_speakers = self.speakers@;
                let ghost idx = i as int;
                self.speakers[i].speed = req.speed;
                self.speakers[i].pitch = req.pitch;
                self.speakers[i].range = req.range;
                self.speakers[i].pause_middle = req.pause_middle;
                self.speakers[i].pause_long = req.pause_long;
                self.speakers[i].pause_sentence = req.pause_sentence;
                proof {
                    assert(self.speakers@ =~= old_speakers.update(
                        idx,
                        spec_patched_speaker(old_speakers[idx], *req),
                    ));
                }
                self.global.voice_name = name;
                self.global.volume = req.volume;
                self.global.text_callback = false;
                self.global.raw_callback = false;
                self.global.event_callback = false;
                proof {
                    assert forall|a: int|
                        0 <= a < self.speakers@.len() implies (
                    #[trigger] self.speakers@[a]).voice_name@ == old_speakers[a].voice_name@ by {}
                    assert(self.wf());
                    assert(0 <= idx < old(self).speakers@.len() && (#[trigger] old(
                        self,
                    ).speakers@[idx]).voice_name@ == Self::spec_key_of(req.voice_id@)
                        && self.speakers@ == old(self).speakers@.update(
                        idx,
                        spec_patched_speaker(old(self).speakers@[idx], *req),
                    ) && self.global.voice_name@ == old(self).speakers@[idx].voice_name@);
                }
                return Ok(());
            }
            i = i + 1;
        }
        Err(TtsError::VoiceNotFound { voice_id: req.voice_id.clone() })
    }

    /// Decide whether the block is well-formed: every record's key fills the
    /// fixed-width name field and no two records share a key.
    pub fn check_wf(&self) -> (b: bool)
        ensures
            b == self.wf(),
    {
        let n = self.speakers.len();
        let mut i: usize = 0;
        while i < n
            invariant
                n == self.speakers@.len(),
                i <= n,
                forall|a: int|
                    0 <= a < i ==> (#[trigger] self.speakers@[a]).voice_name@.len()
                        == VOICE_NAME_LEN,
                forall|a: int, b: int|
                    0 <= a < i && a < b < n ==> self.speakers@[a].voice_name@
                        != self.speakers@[b].voice_name@,
            decreases n - i,
        {
            if self.speakers[i].voice_name.len() != VOICE_NAME_LEN {
                return false;
            }
            let mut j: usize = i + 1;
            while j < n
                invariant
                    n == self.speakers@.len(),
                    i < n,
                    i < j <= n,
                    forall|b: int|
                        i < b < j ==> self.speakers@[i as int].voice_name@
                            != (#[trigger] self.speakers@[b]).voice_name@,
                decreases n - j,
            {
                if bytes_eq(&self.speakers[i].voice_name, &self.speakers[j].voice_name) {
                    return false;
                }
                j = j + 1;
            }
            i = i + 1;
        }
        true
    }

    /// Register the intermediate-phase callback alone, ahead of the text
    /// submission.
    pub fn arm_text(&mut self)
        ensures
            *final(self) == (ParamBlock {
                global: TtsParam {
                    text_callback: true,
                    raw_callback: false,
                    event_callback: false,
                    ..old(self).global
                },
                ..*old(self)
            }),
    {
        self.global.text_callback = true;
        self.global.raw_callback = false;
        self.global.event_callback = false;
    }

    /// Register the waveform-phase callbacks alone, ahead of the waveform
    /// submission.
    pub fn arm_waveform(&mut self)
        ensures
            *final(self) == (ParamBlock {
                global: TtsParam {
                    text_callback: false,
                    raw_callback: true,
                    event_callback: true,
                    ..old(self).global
                },
                ..*old(self)
            }),
    {
        self.global.text_callback = false;
        self.global.raw_callback = true;
        self.global.event_callback = true;
    }
}

} // verus!

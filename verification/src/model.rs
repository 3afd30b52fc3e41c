//! Request model: an immutable synthesis request with documented defaults for
//! omitted numeric fields, and the voice catalogue entry served to clients.
//!
//! The four gain-style parameters (volume, speed, pitch, range) are carried as
//! the bit encoding of the engine's native 32-bit float values; the defaults
//! below are the encodings of 1.0.

use vstd::prelude::*;

verus! {

/// Bit encoding of 1.0 in the engine's native 32-bit float format.
pub const FLOAT_ONE_BITS: u32 = 0x3F80_0000;

/// Default volume (the encoding of 1.0).
pub fn default_volume() -> (r: u32)
    ensures
        r == FLOAT_ONE_BITS,
{
    FLOAT_ONE_BITS
}

/// Default speed (the encoding of 1.0).
pub fn default_speed() -> (r: u32)
    ensures
        r == FLOAT_ONE_BITS,
{
    FLOAT_ONE_BITS
}

/// Default pitch (the encoding of 1.0).
pub fn default_pitch() -> (r: u32)
    ensures
        r == FLOAT_ONE_BITS,
{
    FLOAT_ONE_BITS
}

/// Default range (the encoding of 1.0).
pub fn default_range() -> (r: u32)
    ensures
        r == FLOAT_ONE_BITS,
{
    FLOAT_ONE_BITS
}

/// Default middle pause, in engine-native units.
pub fn default_pause_middle() -> (r: i32)
    ensures
        r == 150,
{
    150
}

/// Default long pause, in engine-native units.
pub fn default_pause_long() -> (r: i32)
    ensures
        r == 370,
{
    370
}

/// Default sentence pause, in engine-native units.
pub fn default_pause_sentence() -> (r: i32)
    ensures
        r == 800,
{
    800
}

/// One synthesis request; immutable once constructed.
#[derive(Clone, Debug)]
pub struct Request {
    pub voice_id: String,
    pub text: String,
    pub volume: u32,
    pub speed: u32,
    pub pitch: u32,
    pub range: u32,
    pub pause_middle: i32,
    pub pause_long: i32,
    pub pause_sentence: i32,
}

impl Request {
    /// Build a request, resolving each omitted numeric field to its
    /// documented default.
    pub fn from_parts(
        voice_id: String,
        text: String,
        volume: Option<u32>,
        speed: Option<u32>,
        pitch: Option<u32>,
        range: Option<u32>,
        pause_middle: Option<i32>,
        pause_long: Option<i32>,
        pause_sentence: Option<i32>,
    ) -> (r: Request)
        ensures
            r.voice_id == voice_id,
            r.text == text,
            r.volume == if volume is Some {
                volume->0
            } else {
                FLOAT_ONE_BITS
            },
            r.speed == if speed is Some {
                speed->0
            } else {
                FLOAT_ONE_BITS
            },
            r.pitch == if pitch is Some {
                pitch->0
            } else {
                FLOAT_ONE_BITS
            },
            r.range == if range is Some {
                range->0
            } else {
                FLOAT_ONE_BITS
            },
            r.pause_middle == if pause_middle is Some {
                pause_middle->0
            } else {
                150
            },
            r.pause_long == if pause_long is Some {
                pause_long->0
            } else {
                370
            },
            r.pause_sentence == if pause_sentence is Some {
                pause_sentence->0
            } else {
                800
            },
    {
        Request {
            voice_id,
            text,
            volume: match volume {
                Some(v) => v,
                None => default_volume(),
            },
            speed: match speed {
                Some(v) => v,
                None => default_speed(),
            },
            pitch: match pitch {
                Some(v) => v,
                None => default_pitch(),
            },
            range: match range {
                Some(v) => v,
                None => default_range(),
            },
            pause_middle: match pause_middle {
                Some(v) => v,
                None => default_pause_middle(),
            },
            pause_long: match pause_long {
                Some(v) => v,
                None => default_pause_long(),
            },
            pause_sentence: match pause_sentence {
                Some(v) => v,
                None => default_pause_sentence(),
            },
        }
    }

    /// A request carrying only a voice and a text, every numeric field at its
    /// default.
    pub fn with_text(voice_id: String, text: String) -> (r: Request)
        ensures
            r.voice_id == voice_id,
            r.text == text,
            r.volume == FLOAT_ONE_BITS,
            r.speed == FLOAT_ONE_BITS,
            r.pitch == FLOAT_ONE_BITS,
            r.range == FLOAT_ONE_BITS,
            r.pause_middle == 150,
            r.pause_long == 370,
            r.pause_sentence == 800,
    {
        Request::from_parts(voice_id, text, None, None, None, None, None, None, None)
    }
}

/// A network request: the body plus an optional explicit dialect override.
#[derive(Clone, Debug)]
pub struct ApiRequest {
    pub is_kansai: Option<bool>,
    pub body: Request,
}

/// One voice catalogue entry served to clients.
#[derive(Clone, Debug)]
pub struct Voice {
    pub id: String,
    pub name: String,
    pub icon: String,
    pub dialect: String,
    pub gender: String,
    pub background_color: String,
}

} // verus!

//! Error taxonomy of the synthesis pipeline, with verified rendering of each
//! error to its descriptive message.

use vstd::prelude::*;

verus! {

/// The two streaming phases of one synthesis job.
#[derive(Clone, Copy, Debug, PartialEq, Eq, Structural)]
pub enum Phase {
    /// Text to intermediate (phonetic) form.
    ToIntermediate,
    /// Intermediate form to waveform.
    ToWaveform,
}

/// A per-request, recoverable failure; converted to a descriptive message and
/// returned to the one caller, with no effect on later requests.
#[derive(Clone, Debug, PartialEq, Eq)]
pub enum TtsError {
    /// The request named a voice id with no record in the parameter cache.
    VoiceNotFound { voice_id: String },
    /// The engine failed while unloading (`unload == true`) or loading the
    /// language resource.
    LanguageSwitch { unload: bool, code: i32 },
    /// The engine rejected a job submission: either the parameter update made
    /// just before submitting (`set_param == true`) or the submission itself.
    Submission { phase: Phase, set_param: bool, code: i32 },
    /// The engine reported a failure when the job's stream was closed.
    Stream { phase: Phase, code: i32 },
    /// The accumulated output of a phase outgrew the encodable size; the
    /// partial buffer is discarded, never returned.
    Oversize { phase: Phase },
}

/// A step of engine start-up; any failure there is fatal.
#[derive(Clone, Copy, Debug, PartialEq, Eq, Structural)]
pub enum SetupStep {
    EngineInit,
    WordDic,
    PhraseDic,
    SymbolDic,
    VoiceLoad,
    ParamProbe,
    ParamFetch,
    LanguageLoad,
}

/// A fatal failure during engine start-up, before the request loop begins.
#[derive(Clone, Copy, Debug, PartialEq, Eq, Structural)]
pub struct SetupError {
    pub step: SetupStep,
    pub code: i32,
}

/// The character for one decimal digit.
pub open spec fn digit_char(d: int) -> char
    recommends
        0 <= d < 10,
{
    ((48 + d) as u8) as char
}

/// Decimal digits of a non-negative integer, most significant first.
pub open spec fn dec_digits(n: int) -> Seq<char>
    recommends
        n >= 0,
    decreases n,
{
    if n < 10 {
        seq![digit_char(n)]
    } else {
        dec_digits(n / 10) + seq![digit_char(n % 10)]
    }
}

/// Decimal rendering of an integer, with a leading minus sign if negative.
pub open spec fn dec_int(n: int) -> Seq<char> {
    if n < 0 {
        seq!['-'] + dec_digits(-n)
    } else {
        dec_digits(n)
    }
}

fn append_digit(s: &mut String, d: u32)
    requires
        d < 10,
    ensures
        final(s)@ == old(s)@ + seq![digit_char(d as int)],
{
    proof {
        reveal_strlit("0");
        reveal_strlit("1");
        reveal_strlit("2");
        reveal_strlit("3");
        reveal_strlit("4");
        reveal_strlit("5");
        reveal_strlit("6");
        reveal_strlit("7");
        reveal_strlit("8");
        reveal_strlit("9");
    }
    match d {
        0 => s.append("0"),
        1 => s.append("1"),
        2 => s.append("2"),
        3 => s.append("3"),
        4 => s.append("4"),
        5 => s.append("5"),
        6 => s.append("6"),
        7 => s.append("7"),
        8 => s.append("8"),
        _ => s.append("9"),
    }
    assert(final(s)@ =~= old(s)@ + seq![digit_char(d as int)]);
}

fn append_dec_u32(s: &mut String, n: u32)
    ensures
        final(s)@ == old(s)@ + dec_digits(n as int),
    decreases n,
{
    if n < 10 {
        append_digit(s, n);
    } else {
        append_dec_u32(s, n / 10);
        append_digit(s, n % 10);
        assert(final(s)@ =~= old(s)@ + dec_digits(n as int));
    }
}

/// Append the decimal rendering of an engine status code.
fn append_code(s: &mut String, code: i32)
    ensures
        final(s)@ == old(s)@ + dec_int(code as int),
{
    if code >= 0 {
        append_dec_u32(s, code as u32);
    } else {
        proof {
            reveal_strlit("-");
        }
        s.append("-");
        let wide: i64 = -(code as i64);
        append_dec_u32(s, wide as u32);
        assert(final(s)@ =~= old(s)@ + dec_int(code as int));
    }
}

/// The decimal rendering of an integer as a string.
pub fn dec_string(n: i32) -> (r: String)
    ensures
        r@ == dec_int(n as int),
{
    let mut s = String::new();
    append_code(&mut s, n);
    assert(s@ =~= dec_int(n as int));
    s
}

/// The descriptive message owed for each per-request error.
pub open spec fn spec_message(e: TtsError) -> Seq<char> {
    match e {
        TtsError::VoiceNotFound { voice_id } => "Failed to find speaker from tts_param "@
            + voice_id@,
        TtsError::LanguageSwitch { unload, code } => if unload {
            "Failed to lang_unload, code "@ + dec_int(code as int)
        } else {
            "Failed to lang_load, code "@ + dec_int(code as int)
        },
        TtsError::Submission { phase, set_param, code } => match (phase, set_param) {
            (Phase::ToIntermediate, true) => "Failed to set_param (text_to_kana), code "@ + dec_int(
                code as int,
            ),
            (Phase::ToIntermediate, false) => "Failed to text_to_kana, code "@ + dec_int(
                code as int,
            ),
            (Phase::ToWaveform, true) => "Failed to set_param (kana_to_speech), code "@ + dec_int(
                code as int,
            ),
            (Phase::ToWaveform, false) => "Failed to kana_to_speech, code "@ + dec_int(code as int),
        },
        TtsError::Stream { phase, code } => match phase {
            Phase::ToIntermediate => "Failed to close_kana, code "@ + dec_int(code as int),
            Phase::ToWaveform => "Failed to close_speech, code "@ + dec_int(code as int),
        },
        TtsError::Oversize { phase } => match phase {
            Phase::ToIntermediate => "Intermediate output too large"@,
            Phase::ToWaveform => "Waveform output too large"@,
        },
    }
}

impl TtsError {
    /// Render the error as its descriptive message.
    pub fn message(&self) -> (r: String)
        ensures
            r@ == spec_message(*self),
    {
        match self {
            TtsError::VoiceNotFound { voice_id } => {
                let mut s = String::from_str("Failed to find speaker from tts_param ");
                s.append(voice_id.as_str());
                assert(s@ =~= spec_message(*self));
                s
            },
            TtsError::LanguageSwitch { unload, code } => {
                let mut s = if *unload {
                    String::from_str("Failed to lang_unload, code ")
                } else {
                    String::from_str("Failed to lang_load, code ")
                };
                append_code(&mut s, *code);
                assert(s@ =~= spec_message(*self));
                s
            },
            TtsError::Submission { phase, set_param, code } => {
                let mut s = match (phase, set_param) {
                    (Phase::ToIntermediate, true) => String::from_str(
                        "Failed to set_param (text_to_kana), code ",
                    ),
                    (Phase::ToIntermediate, false) => String::from_str(
                        "Failed to text_to_kana, code ",
                    ),
                    (Phase::ToWaveform, true) => String::from_str(
                        "Failed to set_param (kana_to_speech), code ",
                    ),
                    (Phase::ToWaveform, false) => String::from_str(
                        "Failed to kana_to_speech, code ",
                    ),
                };
                append_code(&mut s, *code);
                assert(s@ =~= spec_message(*self));
                s
            },
            TtsError::Stream { phase, code } => {
                let mut s = match phase {
                    Phase::ToIntermediate => String::from_str("Failed to close_kana, code "),
                    Phase::ToWaveform => String::from_str("Failed to close_speech, code "),
                };
                append_code(&mut s, *code);
                assert(s@ =~= spec_message(*self));
                s
            },
            TtsError::Oversize { phase } => match phase {
                Phase::ToIntermediate => String::from_str("Intermediate output too large"),
                Phase::ToWaveform => String::from_str("Waveform output too large"),
            },
        }
    }
}

/// The descriptive message owed for each start-up failure.
pub open spec fn spec_setup_message(e: SetupError) -> Seq<char> {
    (match e.step {
        SetupStep::EngineInit => "Failed to engine init, code "@,
        SetupStep::WordDic => "Failed to reload_word_dic, code "@,
        SetupStep::PhraseDic => "Failed to reload_phrase_dic, code "@,
        SetupStep::SymbolDic => "Failed to reload_symbol_dic, code "@,
        SetupStep::VoiceLoad => "Failed to voice_load, code "@,
        SetupStep::ParamProbe => "Failed to get_param (size query), code "@,
        SetupStep::ParamFetch => "Failed to get_param (fetch), code "@,
        SetupStep::LanguageLoad => "Failed to lang_load, code "@,
    }) + dec_int(e.code as int)
}

impl SetupError {
    /// Render the start-up failure as its descriptive message.
    pub fn message(&self) -> (r: String)
        ensures
            r@ == spec_setup_message(*self),
    {
        let mut s = match self.step {
            SetupStep::EngineInit => String::from_str("Failed to engine init, code "),
            SetupStep::WordDic => String::from_str("Failed to reload_word_dic, code "),
            SetupStep::PhraseDic => String::from_str("Failed to reload_phrase_dic, code "),
            SetupStep::SymbolDic => String::from_str("Failed to reload_symbol_dic, code "),
            SetupStep::ParamProbe => String::from_str("Failed to get_param (size query), code "),
            SetupStep::ParamFetch => String::from_str("Failed to get_param (fetch), code "),
            SetupStep::VoiceLoad => String::from_str("Failed to voice_load, code "),
            SetupStep::LanguageLoad => String::from_str("Failed to lang_load, code "),
        };
        append_code(&mut s, self.code);
        assert(s@ =~= spec_setup_message(*self));
        s
    }
}

} // verus!

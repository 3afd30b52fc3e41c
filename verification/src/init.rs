//! Engine start-up: the fixed sequence of calls that brings a worker up —
//! engine initialization, optional dictionary reloads, loading every
//! installed voice, sizing and fetching the parameter block, and loading the
//! initial language resource. Any failure is fatal and carries the step and
//! the engine's status code.

use vstd::prelude::*;
use crate::errors::{SetupError, SetupStep};
use crate::language::Dialect;
use crate::params::ParamBlock;

verus! {

/// The engine status that a deliberately undersized parameter query is owed:
/// "buffer too small", alongside the true required size. The engine adapter
/// maps the engine's own code to this one.
pub const CODE_INSUFFICIENT: i32 = -20;

/// Sample rate the voice database is opened at.
pub const VOICE_DB_HZ: u32 = 44100;

/// Connection-level timeout handed to the engine once, in milliseconds; no
/// per-job timeout exists.
pub const ENGINE_TIMEOUT_MSEC: u32 = 1000;

/// What start-up must do: which dictionaries to reload, which voices to
/// load, which language resource to load first, and the two engine structure
/// sizes that turn a reported parameter-block size into a record count.
pub struct InitConfig {
    pub has_word_dic: bool,
    pub has_phrase_dic: bool,
    pub has_symbol_dic: bool,
    pub voices: Vec<String>,
    pub language: Dialect,
    pub empty_param_size: u32,
    pub speaker_param_size: u32,
}

/// Where start-up stands.
pub enum InitState {
    /// Waiting for the engine's own initialization.
    Initializing,
    ReloadingWordDic,
    ReloadingPhraseDic,
    ReloadingSymbolDic,
    /// Waiting for voice `index` of the configuration to load.
    LoadingVoice { index: usize },
    /// Waiting for the undersized parameter query to report the true size.
    ProbingParamSize,
    /// Waiting for the parameter block, sized for `speaker_count` records.
    FetchingParams { speaker_count: u32 },
    /// Waiting for the initial language resource to load.
    LoadingLanguage { block: ParamBlock },
    /// Start-up is complete; the block seeds the orchestrator.
    Ready { block: ParamBlock },
    /// Start-up failed; the process must not enter the request loop.
    Failed { error: SetupError },
}

/// The single next start-up call to make.
pub enum InitAction {
    EngineInit,
    ReloadWordDic,
    ReloadPhraseDic,
    ReloadSymbolDic,
    LoadVoice { index: usize },
    /// Query the parameter size with a null buffer.
    ProbeParamSize,
    /// Allocate for `speaker_count` records and fetch the block.
    FetchParams { speaker_count: u32 },
    LoadLanguage,
    /// Nothing: start-up is over, successfully or not.
    Done,
}

/// One observed outcome of a start-up call.
pub enum InitEvent {
    /// Status of the call the machine last asked for; zero is success.
    Status { code: i32 },
    /// Outcome of the undersized parameter query: the engine's status and
    /// the required size it reported.
    Probe { code: i32, required_size: u32 },
    /// Outcome of fetching the parameter block, read back into records.
    Fetched { code: i32, block: ParamBlock },
}

/// After the symbol dictionary (or where none is configured): load the first
/// voice, or probe the parameter size if no voice is installed.
pub open spec fn spec_voices_or_probe(cfg: InitConfig) -> (InitState, InitAction) {
    if cfg.voices@.len() > 0 {
        (InitState::LoadingVoice { index: 0 }, InitAction::LoadVoice { index: 0 })
    } else {
        (InitState::ProbingParamSize, InitAction::ProbeParamSize)
    }
}

/// After the phrase dictionary: the symbol dictionary if configured, else on
/// to the voices.
pub open spec fn spec_after_phrase_dic(cfg: InitConfig) -> (InitState, InitAction) {
    if cfg.has_symbol_dic {
        (InitState::ReloadingSymbolDic, InitAction::ReloadSymbolDic)
    } else {
        spec_voices_or_probe(cfg)
    }
}

/// After the word dictionary: the phrase dictionary if configured, else
/// onwards.
pub open spec fn spec_after_word_dic(cfg: InitConfig) -> (InitState, InitAction) {
    if cfg.has_phrase_dic {
        (InitState::ReloadingPhraseDic, InitAction::ReloadPhraseDic)
    } else {
        spec_after_phrase_dic(cfg)
    }
}

/// After engine initialization: the word dictionary if configured, else
/// onwards.
pub open spec fn spec_after_engine_init(cfg: InitConfig) -> (InitState, InitAction) {
    if cfg.has_word_dic {
        (InitState::ReloadingWordDic, InitAction::ReloadWordDic)
    } else {
        spec_after_word_dic(cfg)
    }
}

/// The start-up transition function: from the configuration, the current
/// state and one observed outcome to the next state and the next call. Every
/// non-zero status fails the whole start-up with the step it happened in;
/// the probe must report "insufficient" with a size consistent with the
/// configured structure sizes, and the fetched block must be well-formed.
pub open spec fn spec_init_step(cfg: InitConfig, st: InitState, ev: InitEvent) -> (
    InitState,
    InitAction,
) {
    match (st, ev) {
        (InitState::Initializing, InitEvent::Status { code }) => if code == 0 {
            spec_after_engine_init(cfg)
        } else {
            (
                InitState::Failed { error: SetupError { step: SetupStep::EngineInit, code } },
                InitAction::Done,
            )
        },
        (InitState::ReloadingWordDic, InitEvent::Status { code }) => if code == 0 {
            spec_after_word_dic(cfg)
        } else {
            (
                InitState::Failed { error: SetupError { step: SetupStep::WordDic, code } },
                InitAction::Done,
            )
        },
        (InitState::ReloadingPhraseDic, InitEvent::Status { code }) => if code == 0 {
            spec_after_phrase_dic(cfg)
        } else {
            (
                InitState::Failed { error: SetupError { step: SetupStep::PhraseDic, code } },
                InitAction::Done,
            )
        },
        (InitState::ReloadingSymbolDic, InitEvent::Status { code }) => if code == 0 {
            spec_voices_or_probe(cfg)
        } else {
            (
                InitState::Failed { error: SetupError { step: SetupStep::SymbolDic, code } },
                InitAction::Done,
            )
        },
        (InitState::LoadingVoice { index }, InitEvent::Status { code }) => if code != 0 {
            (
                InitState::Failed { error: SetupError { step: SetupStep::VoiceLoad, code } },
                InitAction::Done,
            )
        } else if index + 1 < cfg.voices@.len() {
            (
                InitState::LoadingVoice { index: (index + 1) as usize },
                InitAction::LoadVoice { index: (index + 1) as usize },
            )
        } else {
            (InitState::ProbingParamSize, InitAction::ProbeParamSize)
        },
        (InitState::ProbingParamSize, InitEvent::Probe { code, required_size }) => if code
            == CODE_INSUFFICIENT && required_size >= cfg.empty_param_size && cfg.speaker_param_size
            > 0 {
            (
                InitState::FetchingParams {
                    speaker_count: ((required_size - cfg.empty_param_size) as int
                        / cfg.speaker_param_size as int) as u32,
                },
                InitAction::FetchParams {
                    speaker_count: ((required_size - cfg.empty_param_size) as int
                        / cfg.speaker_param_size as int) as u32,
                },
            )
        } else {
            (
                InitState::Failed { error: SetupError { step: SetupStep::ParamProbe, code } },
                InitAction::Done,
            )
        },
        (InitState::FetchingParams { speaker_count }, InitEvent::Fetched { code, block }) => if code
            == 0 && block.wf() {
            (InitState::LoadingLanguage { block }, InitAction::LoadLanguage)
        } else {
            (
                InitState::Failed { error: SetupError { step: SetupStep::ParamFetch, code } },
                InitAction::Done,
            )
        },
        (InitState::LoadingLanguage { block }, InitEvent::Status { code }) => if code == 0 {
            (InitState::Ready { block }, InitAction::Done)
        } else {
            (
                InitState::Failed { error: SetupError { step: SetupStep::LanguageLoad, code } },
                InitAction::Done,
            )
        },
        (s, _) => (s, InitAction::Done),
    }
}

fn voices_or_probe(cfg: &InitConfig) -> (r: (InitState, InitAction))
    ensures
        r == spec_voices_or_probe(*cfg),
{
    if cfg.voices.len() > 0 {
        (InitState::LoadingVoice { index: 0 }, InitAction::LoadVoice { index: 0 })
    } else {
        (InitState::ProbingParamSize, InitAction::ProbeParamSize)
    }
}

fn after_phrase_dic(cfg: &InitConfig) -> (r: (InitState, InitAction))
    ensures
        r == spec_after_phrase_dic(*cfg),
{
    if cfg.has_symbol_dic {
        (InitState::ReloadingSymbolDic, InitAction::ReloadSymbolDic)
    } else {
        voices_or_probe(cfg)
    }
}

fn after_word_dic(cfg: &InitConfig) -> (r: (InitState, InitAction))
    ensures
        r == spec_after_word_dic(*cfg),
{
    if cfg.has_phrase_dic {
        (InitState::ReloadingPhraseDic, InitAction::ReloadPhraseDic)
    } else {
        after_phrase_dic(cfg)
    }
}

fn after_engine_init(cfg: &InitConfig) -> (r: (InitState, InitAction))
    ensures
        r == spec_after_engine_init(*cfg),
{
    if cfg.has_word_dic {
        (InitState::ReloadingWordDic, InitAction::ReloadWordDic)
    } else {
        after_word_dic(cfg)
    }
}

/// Begin start-up: the machine waits for the engine's own initialization,
/// which is the first call to make.
pub fn init_start() -> (r: (InitState, InitAction))
    ensures
        r.0 is Initializing,
        r.1 is EngineInit,
{
    (InitState::Initializing, InitAction::EngineInit)
}

/// The speaker-record count an engine-reported block size implies.
pub fn estimate_speaker_count(required_size: u32, empty_size: u32, speaker_size: u32) -> (r: u32)
    requires
        empty_size <= required_size,
        speaker_size > 0,
    ensures
        r == ((required_size - empty_size) as int / speaker_size as int) as u32,
{
    (required_size - empty_size) / speaker_size
}

/// Feed one observed start-up outcome into the machine; returns the next
/// state and the next call.
pub fn init_step(cfg: &InitConfig, st: InitState, ev: InitEvent) -> (r: (InitState, InitAction))
    ensures
        r == spec_init_step(*cfg, st, ev),
{
    match (st, ev) {
        (InitState::Initializing, InitEvent::Status { code }) => {
            if code == 0 {
                after_engine_init(cfg)
            } else {
                (
                    InitState::Failed { error: SetupError { step: SetupStep::EngineInit, code } },
                    InitAction::Done,
                )
            }
        },
        (InitState::ReloadingWordDic, InitEvent::Status { code }) => {
            if code == 0 {
                after_word_dic(cfg)
            } else {
                (
                    InitState::Failed { error: SetupError { step: SetupStep::WordDic, code } },
                    InitAction::Done,
                )
            }
        },
        (InitState::ReloadingPhraseDic, InitEvent::Status { code }) => {
            if code == 0 {
                after_phrase_dic(cfg)
            } else {
                (
                    InitState::Failed { error: SetupError { step: SetupStep::PhraseDic, code } },
                    InitAction::Done,
                )
            }
        },
        (InitState::ReloadingSymbolDic, InitEvent::Status { code }) => {
            if code == 0 {
                voices_or_probe(cfg)
            } else {
                (
                    InitState::Failed { error: SetupError { step: SetupStep::SymbolDic, code } },
                    InitAction::Done,
                )
            }
        },
        (InitState::LoadingVoice { index }, InitEvent::Status { code }) => {
            if code != 0 {
                (
                    InitState::Failed { error: SetupError { step: SetupStep::VoiceLoad, code } },
                    InitAction::Done,
                )
            } else if index < cfg.voices.len() && index + 1 < cfg.voices.len() {
                (
                    InitState::LoadingVoice { index: index + 1 },
                    InitAction::LoadVoice { index: index + 1 },
                )
            } else {
                (InitState::ProbingParamSize, InitAction::ProbeParamSize)
            }
        },
        (InitState::ProbingParamSize, InitEvent::Probe { code, required_size }) => {
            if code == CODE_INSUFFICIENT && required_size >= cfg.empty_param_size
                && cfg.speaker_param_size > 0 {
                let speaker_count = estimate_speaker_count(
                    required_size,
                    cfg.empty_param_size,
                    cfg.speaker_param_size,
                );
                (
                    InitState::FetchingParams { speaker_count },
                    InitAction::FetchParams { speaker_count },
                )
            } else {
                (
                    InitState::Failed { error: SetupError { step: SetupStep::ParamProbe, code } },
                    InitAction::Done,
                )
            }
        },
        (InitState::FetchingParams { speaker_count }, InitEvent::Fetched { code, block }) => {
            if code == 0 && block.check_wf() {
                (InitState::LoadingLanguage { block }, InitAction::LoadLanguage)
            } else {
                (
                    InitState::Failed { error: SetupError { step: SetupStep::ParamFetch, code } },
                    InitAction::Done,
                )
            }
        },
        (InitState::LoadingLanguage { block }, InitEvent::Status { code }) => {
            if code == 0 {
                (InitState::Ready { block }, InitAction::Done)
            } else {
                (
                    InitState::Failed {
                        error: SetupError { step: SetupStep::LanguageLoad, code },
                    },
                    InitAction::Done,
                )
            }
        },
        (s, _) => (s, InitAction::Done),
    }
}

} // verus!

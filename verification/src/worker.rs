//! Job orchestrator: the per-request state machine that drives the engine
//! through parameter patch, language sync, the two streaming synthesis
//! phases, container encoding and the reply.
//!
//! The engine is callback-driven and reachable only through a foreign
//! boundary, so the machine is split from the calls: each transition consumes
//! one observed event (a call's status, a drained chunk, the terminal signal)
//! and names the single next call to make. The surrounding loop performs the
//! named call and feeds the outcome back in.

use vstd::prelude::*;
use crate::errors::{Phase, TtsError};
use crate::language::{
    language_plan, resolve_dialect, spec_language_plan, spec_resolve_dialect, Dialect, LanguagePlan,
};
use crate::model::ApiRequest;
use crate::params::{spec_patch_rel, lemma_patch_rel_rearm, ParamBlock, TtsParam};
use crate::wave::{encode_wav, wav_header};

verus! {

/// Cap on the per-drain text buffer, in bytes.
pub const LEN_TEXT_BUF_MAX: u32 = 65536;

/// Cap on the per-drain waveform buffer, in bytes.
pub const LEN_RAW_BUF_MAX_BYTES: u32 = 1048576;

/// Why the engine invoked a drain callback.
#[derive(Clone, Copy, Debug, PartialEq, Eq, Structural)]
pub enum CallbackReason {
    /// The engine's internal buffer filled.
    BufferFull,
    /// The engine flushed a partial buffer.
    Flush,
    /// The stream ended; the last data is available.
    StreamClosed,
    /// Any other engine event; carries no data.
    Other,
}

/// Whether a callback invocation must drain available data.
pub fn reason_triggers_drain(r: CallbackReason) -> (b: bool)
    ensures
        b == (r != CallbackReason::Other),
{
    match r {
        CallbackReason::BufferFull => true,
        CallbackReason::Flush => true,
        CallbackReason::StreamClosed => true,
        CallbackReason::Other => false,
    }
}

/// Whether a callback invocation fires the completion signal: only the
/// terminal stream-closed event does, never an intermediate one.
pub fn reason_fires_signal(r: CallbackReason) -> (b: bool)
    ensures
        b == (r == CallbackReason::StreamClosed),
{
    match r {
        CallbackReason::StreamClosed => true,
        _ => false,
    }
}

/// Size of the scratch buffer for one intermediate-phase drain: the
/// engine-reported size, capped.
pub fn text_buffer_len(len_text_buf_bytes: u32) -> (r: u32)
    ensures
        r == if len_text_buf_bytes < LEN_TEXT_BUF_MAX {
            len_text_buf_bytes
        } else {
            LEN_TEXT_BUF_MAX
        },
{
    if len_text_buf_bytes < LEN_TEXT_BUF_MAX {
        len_text_buf_bytes
    } else {
        LEN_TEXT_BUF_MAX
    }
}

/// Size in bytes of the scratch buffer for one waveform-phase drain: two
/// bytes per engine-reported word, capped.
pub fn raw_buffer_len(len_raw_buf_words: u32) -> (r: u32)
    ensures
        r == if 2 * (len_raw_buf_words as int) < LEN_RAW_BUF_MAX_BYTES {
            2 * (len_raw_buf_words as int)
        } else {
            LEN_RAW_BUF_MAX_BYTES as int
        },
{
    if len_raw_buf_words < LEN_RAW_BUF_MAX_BYTES / 2 {
        2 * len_raw_buf_words
    } else {
        LEN_RAW_BUF_MAX_BYTES
    }
}

/// Whether an intermediate-phase drain loop must pull again: the engine may
/// have more only when the read filled the buffer up to its trailing
/// terminator slot.
pub fn text_drain_continue(bytes_read: u32, buffer_len: u32) -> (r: bool)
    requires
        buffer_len >= 1,
    ensures
        r == (bytes_read >= buffer_len - 1),
{
    bytes_read >= buffer_len - 1
}

/// Whether a waveform-phase drain loop must pull again: the engine may have
/// more only when the read filled the whole buffer.
pub fn raw_drain_continue(samples_read: u32, buffer_bytes: u32) -> (r: bool)
    ensures
        r == (2 * (samples_read as int) >= buffer_bytes),
{
    (samples_read as u64) * 2 >= (buffer_bytes as u64)
}

/// The first `n` bytes of a drain scratch buffer, as one chunk.
pub fn chunk_prefix(buf: &Vec<u8>, n: usize) -> (r: Vec<u8>)
    requires
        n <= buf@.len(),
    ensures
        r@ == buf@.subrange(0, n as int),
{
    let mut out: Vec<u8> = Vec::new();
    let mut i: usize = 0;
    while i < n
        invariant
            n <= buf@.len(),
            i <= n,
            out@ =~= buf@.subrange(0, i as int),
        decreases n - i,
    {
        out.push(buf[i]);
        i = i + 1;
    }
    proof {
        assert(out@ =~= buf@.subrange(0, n as int));
    }
    out
}

/// One in-flight request's position in the per-request state machine.
pub enum JobState {
    /// Unloading the loaded language resource, to swap to `dialect`.
    SwappingUnload { dialect: Dialect },
    /// Loading the language resource of `dialect`.
    SwappingLoad { dialect: Dialect },
    /// Pushing the parameter block, with the intermediate callback armed.
    PreparingText,
    /// Submitting the request text.
    SubmittingText,
    /// Accumulating intermediate-form chunks until the terminal signal.
    StreamingText { job_id: i32, buf: Vec<u8> },
    /// Closing the intermediate job.
    ClosingText { job_id: i32, buf: Vec<u8> },
    /// Pushing the parameter block, with the waveform callbacks armed.
    PreparingWaveform { kana: Vec<u8> },
    /// Submitting the intermediate form.
    SubmittingWaveform { kana: Vec<u8> },
    /// Accumulating PCM chunks until the terminal signal.
    StreamingWaveform { job_id: i32, pcm: Vec<u8> },
    /// Closing the waveform job.
    ClosingWaveform { job_id: i32, pcm: Vec<u8> },
    /// The reply has been handed out; the request is over.
    Replied,
}

/// One observation handed back to the machine.
pub enum Event {
    /// Outcome of the call the machine last asked for; zero is success. A
    /// "nothing was loaded" outcome of an unload counts as success.
    Status { code: i32 },
    /// Outcome of a submission: a status plus the engine-assigned job id.
    Submitted { code: i32, job_id: i32 },
    /// One chunk drained inside a callback, in order.
    Chunk { data: Vec<u8> },
    /// The terminal stream-closed signal was observed.
    Terminal,
}

/// The single next call the surrounding loop must make.
pub enum Action {
    /// Unload the current language resource.
    UnloadLanguage,
    /// Load the language resource of the dialect.
    LoadLanguage { dialect: Dialect },
    /// Push the current parameter block to the engine.
    SetParams,
    /// Submit the request text for the intermediate phase.
    SubmitText,
    /// Block until the next callback event.
    Await,
    /// Close the intermediate job.
    CloseIntermediate { job_id: i32 },
    /// Submit the intermediate form for the waveform phase.
    SubmitWaveform,
    /// Close the waveform job.
    CloseWaveform { job_id: i32 },
    /// Deliver the result through the request's response slot.
    Reply { result: Result<Vec<u8>, TtsError> },
    /// Nothing: the request is already over.
    Idle,
}

/// Ghost mirror of `JobState`, with buffers as byte sequences.
pub enum StateModel {
    SwappingUnload { dialect: Dialect },
    SwappingLoad { dialect: Dialect },
    PreparingText,
    SubmittingText,
    StreamingText { job_id: i32, buf: Seq<u8> },
    ClosingText { job_id: i32, buf: Seq<u8> },
    PreparingWaveform { kana: Seq<u8> },
    SubmittingWaveform { kana: Seq<u8> },
    StreamingWaveform { job_id: i32, pcm: Seq<u8> },
    ClosingWaveform { job_id: i32, pcm: Seq<u8> },
    Replied,
}

/// Ghost mirror of `Event`.
pub enum EventModel {
    Status { code: i32 },
    Submitted { code: i32, job_id: i32 },
    Chunk { data: Seq<u8> },
    Terminal,
}

/// Ghost mirror of `Action`.
pub enum ActionModel {
    UnloadLanguage,
    LoadLanguage { dialect: Dialect },
    SetParams,
    SubmitText,
    Await,
    CloseIntermediate { job_id: i32 },
    SubmitWaveform,
    CloseWaveform { job_id: i32 },
    Reply { result: Result<Seq<u8>, TtsError> },
    Idle,
}

impl View for JobState {
    type V = StateModel;

    open spec fn view(&self) -> StateModel {
        match self {
            JobState::SwappingUnload { dialect } => StateModel::SwappingUnload {
                dialect: *dialect,
            },
            JobState::SwappingLoad { dialect } => StateModel::SwappingLoad { dialect: *dialect },
            JobState::PreparingText => StateModel::PreparingText,
            JobState::SubmittingText => StateModel::SubmittingText,
            JobState::StreamingText { job_id, buf } => StateModel::StreamingText {
                job_id: *job_id,
                buf: buf@,
            },
            JobState::ClosingText { job_id, buf } => StateModel::ClosingText {
                job_id: *job_id,
                buf: buf@,
            },
            JobState::PreparingWaveform { kana } => StateModel::PreparingWaveform { kana: kana@ },
            JobState::SubmittingWaveform { kana } => StateModel::SubmittingWaveform {
                kana: kana@,
            },
            JobState::StreamingWaveform { job_id, pcm } => StateModel::StreamingWaveform {
                job_id: *job_id,
                pcm: pcm@,
            },
            JobState::ClosingWaveform { job_id, pcm } => StateModel::ClosingWaveform {
                job_id: *job_id,
                pcm: pcm@,
            },
            JobState::Replied => StateModel::Replied,
        }
    }
}

impl View for Event {
    type V = EventModel;

    open spec fn view(&self) -> EventModel {
        match self {
            Event::Status { code } => EventModel::Status { code: *code },
            Event::Submitted { code, job_id } => EventModel::Submitted {
                code: *code,
                job_id: *job_id,
            },
            Event::Chunk { data } => EventModel::Chunk { data: data@ },
            Event::Terminal => EventModel::Terminal,
        }
    }
}

impl View for Action {
    type V = ActionModel;

    open spec fn view(&self) -> ActionModel {
        match self {
            Action::UnloadLanguage => ActionModel::UnloadLanguage,
            Action::LoadLanguage { dialect } => ActionModel::LoadLanguage { dialect: *dialect },
            Action::SetParams => ActionModel::SetParams,
            Action::SubmitText => ActionModel::SubmitText,
            Action::Await => ActionModel::Await,
            Action::CloseIntermediate { job_id } => ActionModel::CloseIntermediate {
                job_id: *job_id,
            },
            Action::SubmitWaveform => ActionModel::SubmitWaveform,
            Action::CloseWaveform { job_id } => ActionModel::CloseWaveform { job_id: *job_id },
            Action::Reply { result } => ActionModel::Reply {
                result: match result {
                    Ok(v) => Ok(v@),
                    Err(e) => Err(*e),
                },
            },
            Action::Idle => ActionModel::Idle,
        }
    }
}

/// Which callback registration a transition pushes into the parameter block.
pub enum ArmChange {
    Unchanged,
    Text,
    Waveform,
}

/// The parameter block after a transition's callback-registration change.
pub open spec fn spec_armed(pb: ParamBlock, a: ArmChange) -> ParamBlock {
    match a {
        ArmChange::Unchanged => pb,
        ArmChange::Text => ParamBlock {
            global: TtsParam {
                text_callback: true,
                raw_callback: false,
                event_callback: false,
                ..pb.global
            },
            ..pb
        },
        ArmChange::Waveform => ParamBlock {
            global: TtsParam {
                text_callback: false,
                raw_callback: true,
                event_callback: true,
                ..pb.global
            },
            ..pb
        },
    }
}

/// The complete outcome of one transition.
pub struct StepSpec {
    pub language: Option<Dialect>,
    pub state: StateModel,
    pub action: ActionModel,
    pub arm: ArmChange,
}

/// The encoded container for a PCM payload.
pub open spec fn spec_wav(pcm: Seq<u8>) -> Seq<u8> {
    wav_header(pcm.len() as u32) + pcm
}

/// Largest PCM payload the container can declare.
pub open spec fn spec_max_pcm_len() -> int {
    u32::MAX - 44
}

/// The transition function of the per-request machine: from the loaded
/// language, the current state and one observed event to the new language
/// state, the next state, the next engine call and the callback-registration
/// change. Events that the current state does not expect are ignored.
pub open spec fn spec_step(lang: Option<Dialect>, st: StateModel, ev: EventModel) -> StepSpec {
    match (st, ev) {
        (StateModel::SwappingUnload { dialect }, EventModel::Status { code }) => if code == 0 {
            StepSpec {
                language: None,
                state: StateModel::SwappingLoad { dialect },
                action: ActionModel::LoadLanguage { dialect },
                arm: ArmChange::Unchanged,
            }
        } else {
            StepSpec {
                language: lang,
                state: StateModel::Replied,
                action: ActionModel::Reply {
                    result: Err(TtsError::LanguageSwitch { unload: true, code }),
                },
                arm: ArmChange::Unchanged,
            }
        },
        (StateModel::SwappingLoad { dialect }, EventModel::Status { code }) => if code == 0 {
            StepSpec {
                language: Some(dialect),
                state: StateModel::PreparingText,
                action: ActionModel::SetParams,
                arm: ArmChange::Text,
            }
        } else {
            StepSpec {
                language: lang,
                state: StateModel::Replied,
                action: ActionModel::Reply {
                    result: Err(TtsError::LanguageSwitch { unload: false, code }),
                },
                arm: ArmChange::Unchanged,
            }
        },
        (StateModel::PreparingText, EventModel::Status { code }) => if code == 0 {
            StepSpec {
                language: lang,
                state: StateModel::SubmittingText,
                action: ActionModel::SubmitText,
                arm: ArmChange::Unchanged,
            }
        } else {
            StepSpec {
                language: lang,
                state: StateModel::Replied,
                action: ActionModel::Reply {
                    result: Err(
                        TtsError::Submission {
                            phase: Phase::ToIntermediate,
                            set_param: true,
                            code,
                        },
                    ),
                },
                arm: ArmChange::Unchanged,
            }
        },
        (StateModel::SubmittingText, EventModel::Submitted { code, job_id }) => if code == 0 {
            StepSpec {
                language: lang,
                state: StateModel::StreamingText { job_id, buf: Seq::empty() },
                action: ActionModel::Await,
                arm: ArmChange::Unchanged,
            }
        } else {
            StepSpec {
                language: lang,
                state: StateModel::Replied,
                action: ActionModel::Reply {
                    result: Err(
                        TtsError::Submission {
                            phase: Phase::ToIntermediate,
                            set_param: false,
                            code,
                        },
                    ),
                },
                arm: ArmChange::Unchanged,
            }
        },
        (StateModel::StreamingText { job_id, buf }, EventModel::Chunk { data }) => StepSpec {
            language: lang,
            state: StateModel::StreamingText { job_id, buf: buf + data },
            action: ActionModel::Await,
            arm: ArmChange::Unchanged,
        },
        (StateModel::StreamingText { job_id, buf }, EventModel::Terminal) => StepSpec {
            language: lang,
            state: StateModel::ClosingText { job_id, buf },
            action: ActionModel::CloseIntermediate { job_id },
            arm: ArmChange::Unchanged,
        },
        (StateModel::ClosingText { job_id, buf }, EventModel::Status { code }) => if code == 0 {
            StepSpec {
                language: lang,
                state: StateModel::PreparingWaveform { kana: buf + seq![0u8] },
                action: ActionModel::SetParams,
                arm: ArmChange::Waveform,
            }
        } else {
            StepSpec {
                language: lang,
                state: StateModel::Replied,
                action: ActionModel::Reply {
                    result: Err(TtsError::Stream { phase: Phase::ToIntermediate, code }),
                },
                arm: ArmChange::Unchanged,
            }
        },
        (StateModel::PreparingWaveform { kana }, EventModel::Status { code }) => if code == 0 {
            StepSpec {
                language: lang,
                state: StateModel::SubmittingWaveform { kana },
                action: ActionModel::SubmitWaveform,
                arm: ArmChange::Unchanged,
            }
        } else {
            StepSpec {
                language: lang,
                state: StateModel::Replied,
                action: ActionModel::Reply {
                    result: Err(
                        TtsError::Submission { phase: Phase::ToWaveform, set_param: true, code },
                    ),
                },
                arm: ArmChange::Unchanged,
            }
        },
        (StateModel::SubmittingWaveform { kana }, EventModel::Submitted { code, job_id }) => if code
            == 0 {
            StepSpec {
                language: lang,
                state: StateModel::StreamingWaveform { job_id, pcm: Seq::empty() },
                action: ActionModel::Await,
                arm: ArmChange::Unchanged,
            }
        } else {
            StepSpec {
                language: lang,
                state: StateModel::Replied,
                action: ActionModel::Reply {
                    result: Err(
                        TtsError::Submission { phase: Phase::ToWaveform, set_param: false, code },
                    ),
                },
                arm: ArmChange::Unchanged,
            }
        },
        (StateModel::StreamingWaveform { job_id, pcm }, EventModel::Chunk { data }) => StepSpec {
            language: lang,
            state: StateModel::StreamingWaveform { job_id, pcm: pcm + data },
            action: ActionModel::Await,
            arm: ArmChange::Unchanged,
        },
        (StateModel::StreamingWaveform { job_id, pcm }, EventModel::Terminal) => StepSpec {
            language: lang,
            state: StateModel::ClosingWaveform { job_id, pcm },
            action: ActionModel::CloseWaveform { job_id },
            arm: ArmChange::Unchanged,
        },
        (StateModel::ClosingWaveform { job_id, pcm }, EventModel::Status { code }) => if code == 0 {
            if pcm.len() <= spec_max_pcm_len() {
                StepSpec {
                    language: lang,
                    state: StateModel::Replied,
                    action: ActionModel::Reply { result: Ok(spec_wav(pcm)) },
                    arm: ArmChange::Unchanged,
                }
            } else {
                StepSpec {
                    language: lang,
                    state: StateModel::Replied,
                    action: ActionModel::Reply {
                        result: Err(TtsError::Oversize { phase: Phase::ToWaveform }),
                    },
                    arm: ArmChange::Unchanged,
                }
            }
        } else {
            StepSpec {
                language: lang,
                state: StateModel::Replied,
                action: ActionModel::Reply {
                    result: Err(TtsError::Stream { phase: Phase::ToWaveform, code }),
                },
                arm: ArmChange::Unchanged,
            }
        },
        (s, _) => StepSpec {
            language: lang,
            state: s,
            action: ActionModel::Idle,
            arm: ArmChange::Unchanged,
        },
    }
}

/// The machine's whole trace over a sequence of observed events: every
/// action it asked for, and the language state and machine state it ends in.
pub struct RunResult {
    pub actions: Seq<ActionModel>,
    pub language: Option<Dialect>,
    pub state: StateModel,
}

/// Run the machine over a sequence of observed events.
pub open spec fn spec_run(lang: Option<Dialect>, st: StateModel, evs: Seq<EventModel>) -> RunResult
    decreases evs.len(),
{
    if evs.len() == 0 {
        RunResult { actions: seq![], language: lang, state: st }
    } else {
        let s = spec_step(lang, st, evs[0]);
        let rest = spec_run(s.language, s.state, evs.drop_first());
        RunResult {
            actions: seq![s.action] + rest.actions,
            language: rest.language,
            state: rest.state,
        }
    }
}

/// An engine call that unloads or loads a language resource.
pub open spec fn spec_is_language_call(a: ActionModel) -> bool {
    a is UnloadLanguage || a is LoadLanguage
}

/// An engine call into the waveform phase.
pub open spec fn spec_is_waveform_call(a: ActionModel) -> bool {
    a is SubmitWaveform || a is CloseWaveform
}

/// A state past language sync: the machine will not touch the language state
/// again within this request.
pub open spec fn spec_past_language(st: StateModel) -> bool {
    !(st is SwappingUnload) && !(st is SwappingLoad)
}

/// Past language sync, one transition stays past it, keeps the language
/// state, and never asks for a language call.
pub proof fn lemma_step_past_language(lang: Option<Dialect>, st: StateModel, ev: EventModel)
    requires
        spec_past_language(st),
    ensures
        ({
            let s = spec_step(lang, st, ev);
            &&& spec_past_language(s.state)
            &&& s.language == lang
            &&& !spec_is_language_call(s.action)
        }),
{
}

/// Past language sync, a whole run keeps the language state and never asks
/// for a language call.
pub proof fn lemma_run_past_language(lang: Option<Dialect>, st: StateModel, evs: Seq<EventModel>)
    requires
        spec_past_language(st),
    ensures
        ({
            let run = spec_run(lang, st, evs);
            &&& run.language == lang
            &&& spec_past_language(run.state)
            &&& forall|k: int|
                0 <= k < run.actions.len() ==> !spec_is_language_call(#[trigger] run.actions[k])
        }),
    decreases evs.len(),
{
    if evs.len() > 0 {
        let s = spec_step(lang, st, evs[0]);
        lemma_step_past_language(lang, st, evs[0]);
        lemma_run_past_language(s.language, s.state, evs.drop_first());
    }
}

/// A finished request stays finished: every further transition is idle and
/// keeps the language state.
pub proof fn lemma_run_replied(lang: Option<Dialect>, evs: Seq<EventModel>)
    ensures
        ({
            let run = spec_run(lang, StateModel::Replied, evs);
            &&& run.language == lang
            &&& run.state is Replied
            &&& forall|k: int|
                0 <= k < run.actions.len() ==> (#[trigger] run.actions[k]) == ActionModel::Idle
        }),
    decreases evs.len(),
{
    if evs.len() > 0 {
        lemma_run_replied(lang, evs.drop_first());
    }
}

/// Any transition that replies ends the request: the machine is in its
/// terminal state afterwards.
pub proof fn lemma_reply_is_final(lang: Option<Dialect>, st: StateModel, ev: EventModel)
    ensures
        (spec_step(lang, st, ev).action is Reply) ==> (spec_step(lang, st, ev).state is Replied),
{
}

/// How many of a run's actions deliver a result.
pub open spec fn spec_reply_count(actions: Seq<ActionModel>) -> int
    decreases actions.len(),
{
    if actions.len() == 0 {
        0
    } else {
        (if actions[0] is Reply {
            1int
        } else {
            0int
        }) + spec_reply_count(actions.drop_first())
    }
}

/// The response slot is fulfilled at most once: however a run unfolds, the
/// machine asks for at most one reply, and for none at all once the request
/// is over.
pub proof fn lemma_at_most_one_reply(lang: Option<Dialect>, st: StateModel, evs: Seq<EventModel>)
    ensures
        spec_reply_count(spec_run(lang, st, evs).actions) <= 1,
        st is Replied ==> spec_reply_count(spec_run(lang, st, evs).actions) == 0,
    decreases evs.len(),
{
    if evs.len() > 0 {
        let s = spec_step(lang, st, evs[0]);
        lemma_reply_is_final(lang, st, evs[0]);
        lemma_at_most_one_reply(s.language, s.state, evs.drop_first());
        let run = spec_run(lang, st, evs);
        assert(run.actions.drop_first() =~= spec_run(s.language, s.state, evs.drop_first()).actions);
    }
}

/// A submission failure during the intermediate phase prevents any call into
/// the waveform phase for that request: the machine replies with the error at
/// once, and no continuation of the run ever asks for a waveform call.
pub proof fn lemma_submission_failure_blocks_waveform(
    lang: Option<Dialect>,
    code: i32,
    job_id: i32,
    evs: Seq<EventModel>,
)
    requires
        code != 0,
    ensures
        ({
            let s = spec_step(
                lang,
                StateModel::SubmittingText,
                EventModel::Submitted { code, job_id },
            );
            &&& s.action == (ActionModel::Reply {
                result: Err(
                    TtsError::Submission { phase: Phase::ToIntermediate, set_param: false, code },
                ),
            })
            &&& s.state is Replied
            &&& !spec_is_waveform_call(s.action)
            &&& forall|k: int|
                0 <= k < spec_run(s.language, s.state, evs).actions.len()
                    ==> !spec_is_waveform_call(
                    #[trigger] spec_run(s.language, s.state, evs).actions[k],
                )
        }),
{
    let s = spec_step(lang, StateModel::SubmittingText, EventModel::Submitted { code, job_id });
    lemma_run_replied(s.language, evs);
}

/// A failure of the parameter push ahead of the intermediate submission
/// prevents any call into the waveform phase in the same way.
pub proof fn lemma_preparation_failure_blocks_waveform(
    lang: Option<Dialect>,
    code: i32,
    evs: Seq<EventModel>,
)
    requires
        code != 0,
    ensures
        ({
            let s = spec_step(lang, StateModel::PreparingText, EventModel::Status { code });
            &&& s.action == (ActionModel::Reply {
                result: Err(
                    TtsError::Submission { phase: Phase::ToIntermediate, set_param: true, code },
                ),
            })
            &&& s.state is Replied
            &&& forall|k: int|
                0 <= k < spec_run(s.language, s.state, evs).actions.len()
                    ==> !spec_is_waveform_call(
                    #[trigger] spec_run(s.language, s.state, evs).actions[k],
                )
        }),
{
    let s = spec_step(lang, StateModel::PreparingText, EventModel::Status { code });
    lemma_run_replied(s.language, evs);
}

/// A request whose resolved dialect is the one already loaded never triggers
/// an unload/load cycle: the plan keeps the loaded resource, the request
/// proceeds straight to its parameter push, and no continuation of its run
/// asks for any language call; the language state is kept throughout. Two
/// consecutive requests with one resolved dialect therefore both plan `Keep`.
pub proof fn lemma_same_dialect_no_swap(d: Dialect, evs: Seq<EventModel>)
    ensures
        spec_language_plan(Some(d), d) == LanguagePlan::Keep,
        spec_run(Some(d), StateModel::PreparingText, evs).language == Some(d),
        forall|k: int|
            0 <= k < spec_run(Some(d), StateModel::PreparingText, evs).actions.len()
                ==> !spec_is_language_call(
                #[trigger] spec_run(Some(d), StateModel::PreparingText, evs).actions[k],
            ),
{
    lemma_run_past_language(Some(d), StateModel::PreparingText, evs);
}

/// A dialect change triggers exactly one unload followed by exactly one
/// load: the swap emits the unload (asked for when the request started) and
/// then the load once each, and once the load has succeeded the rest of the
/// run makes no language call at all.
pub proof fn lemma_dialect_change_single_swap(
    lang: Option<Dialect>,
    d: Dialect,
    evs: Seq<EventModel>,
)
    ensures
        ({
            let s1 = spec_step(
                lang,
                StateModel::SwappingUnload { dialect: d },
                EventModel::Status { code: 0 },
            );
            let s2 = spec_step(s1.language, s1.state, EventModel::Status { code: 0 });
            &&& s1.language is None
            &&& s1.action == (ActionModel::LoadLanguage { dialect: d })
            &&& s2.language == Some(d)
            &&& s2.state is PreparingText
            &&& s2.action == ActionModel::SetParams
            &&& forall|k: int|
                0 <= k < spec_run(s2.language, s2.state, evs).actions.len()
                    ==> !spec_is_language_call(
                    #[trigger] spec_run(s2.language, s2.state, evs).actions[k],
                )
        }),
{
    let s1 = spec_step(
        lang,
        StateModel::SwappingUnload { dialect: d },
        EventModel::Status { code: 0 },
    );
    let s2 = spec_step(s1.language, s1.state, EventModel::Status { code: 0 });
    lemma_run_past_language(s2.language, s2.state, evs);
}

/// A successful close of the waveform phase replies with the complete
/// accumulated PCM in the container: the reply's bytes start with `"RIFF"`
/// and declare exactly the payload's length.
pub proof fn lemma_ok_reply_is_wav(lang: Option<Dialect>, job_id: i32, pcm: Seq<u8>)
    requires
        pcm.len() <= spec_max_pcm_len(),
    ensures
        ({
            let s = spec_step(
                lang,
                StateModel::ClosingWaveform { job_id, pcm },
                EventModel::Status { code: 0 },
            );
            &&& s.action == (ActionModel::Reply { result: Ok(spec_wav(pcm)) })
            &&& spec_wav(pcm).subrange(0, 4) == seq![0x52u8, 0x49u8, 0x46u8, 0x46u8]
            &&& crate::wave::le32_val(spec_wav(pcm).subrange(40, 44)) == pcm.len()
        }),
{
    crate::wave::lemma_wav_shape(pcm);
}

/// A reply carrying audio bytes can only come from closing the waveform
/// phase: no other state ever emits one.
pub proof fn lemma_ok_reply_only_from_waveform_close(
    lang: Option<Dialect>,
    st: StateModel,
    ev: EventModel,
)
    ensures
        ({
            let s = spec_step(lang, st, ev);
            (s.action matches ActionModel::Reply { result } && result is Ok) ==> (st
                is ClosingWaveform && ev is Status)
        }),
{
}

/// All mutable synthesis state of one worker: the parameter cache and the
/// single-slot language cache. Constructed once, owned by one thread, and
/// threaded through every request.
pub struct Orchestrator {
    pub params: ParamBlock,
    pub language: Option<Dialect>,
}

impl Orchestrator {
    /// A fresh orchestrator around an engine-fetched parameter block, with
    /// the language resource loaded at start-up, if any, recorded.
    pub fn new(params: ParamBlock, language: Option<Dialect>) -> (r: Orchestrator)
        ensures
            r.params == params,
            r.language == language,
    {
        Orchestrator { params, language }
    }

    /// Begin one request: patch the parameter cache for its voice, resolve
    /// its dialect, and hand out the first engine call. An unknown voice is
    /// answered at once and changes neither the parameter cache nor the
    /// language state.
    pub fn start(&mut self, req: &ApiRequest) -> (r: (JobState, Action))
        requires
            old(self).params.wf(),
        ensures
            final(self).params.wf(),
            final(self).language == old(self).language,
            ({
                let key = ParamBlock::spec_key_of(req.body.voice_id@);
                let d = spec_resolve_dialect(req.is_kansai, req.body.voice_id@);
                if !old(self).params.spec_has_voice(key) {
                    &&& final(self).params == old(self).params
                    &&& r.0@ == StateModel::Replied
                    &&& r.1@ == (ActionModel::Reply {
                        result: Err(TtsError::VoiceNotFound { voice_id: req.body.voice_id }),
                    })
                } else if spec_language_plan(old(self).language, d) == LanguagePlan::Keep {
                    &&& spec_patch_rel(
                        old(self).params,
                        final(self).params,
                        req.body,
                        true,
                        false,
                        false,
                    )
                    &&& r.0@ == StateModel::PreparingText
                    &&& r.1@ == ActionModel::SetParams
                } else {
                    &&& spec_patch_rel(
                        old(self).params,
                        final(self).params,
                        req.body,
                        false,
                        false,
                        false,
                    )
                    &&& r.0@ == (StateModel::SwappingUnload { dialect: d })
                    &&& r.1@ == ActionModel::UnloadLanguage
                }
            }),
    {
        match self.params.patch(&req.body) {
            Err(e) => (JobState::Replied, Action::Reply { result: Err(e) }),
            Ok(()) => {
                let d = resolve_dialect(req.is_kansai, req.body.voice_id.as_str());
                match language_plan(self.language, d) {
                    LanguagePlan::Keep => {
                        let ghost mid = self.params;
                        self.params.arm_text();
                        proof {
                            lemma_patch_rel_rearm(
                                old(self).params,
                                mid,
                                self.params,
                                req.body,
                                false,
                                false,
                                false,
                                true,
                                false,
                                false,
                            );
                        }
                        (JobState::PreparingText, Action::SetParams)
                    },
                    LanguagePlan::Swap => (
                        JobState::SwappingUnload { dialect: d },
                        Action::UnloadLanguage,
                    ),
                }
            },
        }
    }

    /// Feed one observed event into the machine; returns the next state and
    /// the next engine call.
    pub fn step(&mut self, st: JobState, ev: Event) -> (r: (JobState, Action))
        requires
            old(self).params.wf(),
        ensures
            final(self).params.wf(),
            ({
                let s = spec_step(old(self).language, st@, ev@);
                &&& final(self).language == s.language
                &&& r.0@ == s.state
                &&& r.1@ == s.action
                &&& final(self).params == spec_armed(old(self).params, s.arm)
            }),
    {
        match (st, ev) {
            (JobState::SwappingUnload { dialect }, Event::Status { code }) => {
                if code == 0 {
                    self.language = None;
                    (JobState::SwappingLoad { dialect }, Action::LoadLanguage { dialect })
                } else {
                    (
                        JobState::Replied,
                        Action::Reply {
                            result: Err(TtsError::LanguageSwitch { unload: true, code }),
                        },
                    )
                }
            },
            (JobState::SwappingLoad { dialect }, Event::Status { code }) => {
                if code == 0 {
                    self.language = Some(dialect);
                    self.params.arm_text();
                    (JobState::PreparingText, Action::SetParams)
                } else {
                    (
                        JobState::Replied,
                        Action::Reply {
                            result: Err(TtsError::LanguageSwitch { unload: false, code }),
                        },
                    )
                }
            },
            (JobState::PreparingText, Event::Status { code }) => {
                if code == 0 {
                    (JobState::SubmittingText, Action::SubmitText)
                } else {
                    (
                        JobState::Replied,
                        Action::Reply {
                            result: Err(
                                TtsError::Submission {
                                    phase: Phase::ToIntermediate,
                                    set_param: true,
                                    code,
                                },
                            ),
                        },
                    )
                }
            },
            (JobState::SubmittingText, Event::Submitted { code, job_id }) => {
                if code == 0 {
                    (JobState::StreamingText { job_id, buf: Vec::new() }, Action::Await)
                } else {
                    (
                        JobState::Replied,
                        Action::Reply {
                            result: Err(
                                TtsError::Submission {
                                    phase: Phase::ToIntermediate,
                                    set_param: false,
                                    code,
                                },
                            ),
                        },
                    )
                }
            },
            (JobState::StreamingText { job_id, mut buf }, Event::Chunk { mut data }) => {
                buf.append(&mut data);
                (JobState::StreamingText { job_id, buf }, Action::Await)
            },
            (JobState::StreamingText { job_id, buf }, Event::Terminal) => {
                (JobState::ClosingText { job_id, buf }, Action::CloseIntermediate { job_id })
            },
            (JobState::ClosingText { job_id, mut buf }, Event::Status { code }) => {
                if code == 0 {
                    let ghost b0 = buf@;
                    buf.push(0);
                    proof {
                        assert(buf@ =~= b0 + seq![0u8]);
                    }
                    self.params.arm_waveform();
                    (JobState::PreparingWaveform { kana: buf }, Action::SetParams)
                } else {
                    (
                        JobState::Replied,
                        Action::Reply {
                            result: Err(TtsError::Stream { phase: Phase::ToIntermediate, code }),
                        },
                    )
                }
            },
            (JobState::PreparingWaveform { kana }, Event::Status { code }) => {
                if code == 0 {
                    (JobState::SubmittingWaveform { kana }, Action::SubmitWaveform)
                } else {
                    (
                        JobState::Replied,
                        Action::Reply {
                            result: Err(
                                TtsError::Submission {
                                    phase: Phase::ToWaveform,
                                    set_param: true,
                                    code,
                                },
                            ),
                        },
                    )
                }
            },
            (JobState::SubmittingWaveform { kana }, Event::Submitted { code, job_id }) => {
                if code == 0 {
                    (JobState::StreamingWaveform { job_id, pcm: Vec::new() }, Action::Await)
                } else {
                    (
                        JobState::Replied,
                        Action::Reply {
                            result: Err(
                                TtsError::Submission {
                                    phase: Phase::ToWaveform,
                                    set_param: false,
                                    code,
                                },
                            ),
                        },
                    )
                }
            },
            (JobState::StreamingWaveform { job_id, mut pcm }, Event::Chunk { mut data }) => {
                pcm.append(&mut data);
                (JobState::StreamingWaveform { job_id, pcm }, Action::Await)
            },
            (JobState::StreamingWaveform { job_id, pcm }, Event::Terminal) => {
                (JobState::ClosingWaveform { job_id, pcm }, Action::CloseWaveform { job_id })
            },
            (JobState::ClosingWaveform { job_id, pcm }, Event::Status { code }) => {
                if code == 0 {
                    if pcm.len() <= (u32::MAX - 44) as usize {
                        (JobState::Replied, Action::Reply { result: Ok(encode_wav(pcm)) })
                    } else {
                        (
                            JobState::Replied,
                            Action::Reply {
                                result: Err(TtsError::Oversize { phase: Phase::ToWaveform }),
                            },
                        )
                    }
                } else {
                    (
                        JobState::Replied,
                        Action::Reply {
                            result: Err(TtsError::Stream { phase: Phase::ToWaveform, code }),
                        },
                    )
                }
            },
            (s, _) => (s, Action::Idle),
        }
    }
}

} // verus!

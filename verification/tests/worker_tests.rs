use voicegate::codec::encode_voice_name;
use voicegate::language::Dialect;
use voicegate::model::{ApiRequest, Request};
use voicegate::params::{ParamBlock, SpeakerParam, TtsParam};
use voicegate::worker::{
    chunk_prefix, raw_buffer_len, raw_drain_continue, reason_fires_signal,
    reason_triggers_drain, text_buffer_len, text_drain_continue, Action, CallbackReason, Event,
    JobState, Orchestrator, LEN_RAW_BUF_MAX_BYTES, LEN_TEXT_BUF_MAX,
};

fn orchestrator(ids: &[&str], language: Option<Dialect>) -> Orchestrator {
    let block = ParamBlock {
        global: TtsParam {
            voice_name: vec![0; 80],
            volume: 0,
            len_text_buf_bytes: 100,
            len_raw_buf_words: 50,
            text_callback: false,
            raw_callback: false,
            event_callback: false,
        },
        speakers: ids
            .iter()
            .map(|id| SpeakerParam {
                voice_name: encode_voice_name(id),
                speed: 0,
                pitch: 0,
                range: 0,
                pause_middle: 0,
                pause_long: 0,
                pause_sentence: 0,
            })
            .collect(),
    };
    Orchestrator::new(block, language)
}

fn request(voice: &str, text: &str) -> ApiRequest {
    ApiRequest {
        is_kansai: None,
        body: Request::with_text(voice.to_string(), text.to_string()),
    }
}

#[test]
fn end_to_end_request_returns_wav() {
    let mut orch = orchestrator(&["f1"], Some(Dialect::Standard));
    let (st, act) = orch.start(&request("f1", "hello"));
    assert!(matches!(act, Action::SetParams));
    assert!(orch.params.global.text_callback);
    assert!(!orch.params.global.raw_callback);

    let (st, act) = orch.step(st, Event::Status { code: 0 });
    assert!(matches!(act, Action::SubmitText));
    let (st, act) = orch.step(st, Event::Submitted { code: 0, job_id: 7 });
    assert!(matches!(act, Action::Await));
    let (st, act) = orch.step(st, Event::Chunk { data: vec![0x82, 0xA0] });
    assert!(matches!(act, Action::Await));
    let (st, act) = orch.step(st, Event::Terminal);
    assert!(matches!(act, Action::CloseIntermediate { job_id: 7 }));

    // closing the intermediate job appends the terminator and re-arms
    let (st, act) = orch.step(st, Event::Status { code: 0 });
    assert!(matches!(act, Action::SetParams));
    assert!(!orch.params.global.text_callback);
    assert!(orch.params.global.raw_callback);
    assert!(orch.params.global.event_callback);
    match &st {
        JobState::PreparingWaveform { kana } => assert_eq!(kana, &vec![0x82, 0xA0, 0]),
        other => panic!("unexpected state {:?}", state_name(other)),
    }

    let (st, act) = orch.step(st, Event::Status { code: 0 });
    assert!(matches!(act, Action::SubmitWaveform));
    let (st, act) = orch.step(st, Event::Submitted { code: 0, job_id: 8 });
    assert!(matches!(act, Action::Await));
    let (st, act) = orch.step(st, Event::Chunk { data: vec![1, 2] });
    assert!(matches!(act, Action::Await));
    let (st, act) = orch.step(st, Event::Chunk { data: vec![3, 4] });
    assert!(matches!(act, Action::Await));
    let (st, act) = orch.step(st, Event::Terminal);
    assert!(matches!(act, Action::CloseWaveform { job_id: 8 }));
    let (_st, act) = orch.step(st, Event::Status { code: 0 });
    match act {
        Action::Reply { result: Ok(wav) } => {
            assert!(!wav.is_empty());
            assert_eq!(&wav[0..4], b"RIFF");
            assert_eq!(&wav[40..44], &4u32.to_le_bytes());
            assert_eq!(&wav[44..], &[1, 2, 3, 4]);
        }
        other => panic!("expected audio reply, got {:?}", action_name(&other)),
    }
}

#[test]
fn unknown_voice_is_answered_at_once_and_names_the_voice() {
    let mut orch = orchestrator(&["f1"], Some(Dialect::Standard));
    let language_before = orch.language;
    let (st, act) = orch.start(&request("nonexistent", "x"));
    match act {
        Action::Reply { result: Err(e) } => {
            let msg = e.message();
            assert!(msg.contains("nonexistent"), "message was {msg}");
        }
        other => panic!("expected an error reply, got {:?}", action_name(&other)),
    }
    assert_eq!(orch.language, language_before);
    assert_eq!(orch.params.global.volume, 0);
    // the machine is finished: further events are ignored
    let (_st, act) = orch.step(st, Event::Terminal);
    assert!(matches!(act, Action::Idle));
}

#[test]
fn same_dialect_triggers_no_swap_and_change_swaps_once() {
    let mut orch = orchestrator(&["f1", "west_a"], Some(Dialect::Standard));

    // same resolved dialect: straight to the parameter push
    let (_st, act) = orch.start(&request("f1", "x"));
    assert!(matches!(act, Action::SetParams));
    assert_eq!(orch.language, Some(Dialect::Standard));

    // dialect change: exactly one unload, then one load, then no more
    let (st, act) = orch.start(&request("west_a", "x"));
    assert!(matches!(act, Action::UnloadLanguage));
    let (st, act) = orch.step(st, Event::Status { code: 0 });
    assert!(matches!(act, Action::LoadLanguage { dialect: Dialect::Kansai }));
    assert_eq!(orch.language, None);
    let (st, act) = orch.step(st, Event::Status { code: 0 });
    assert!(matches!(act, Action::SetParams));
    assert_eq!(orch.language, Some(Dialect::Kansai));
    let (_st, act) = orch.step(st, Event::Status { code: 0 });
    assert!(matches!(act, Action::SubmitText));

    // a following request with the now-loaded dialect keeps it
    let (_st, act) = orch.start(&request("west_a", "y"));
    assert!(matches!(act, Action::SetParams));
    assert_eq!(orch.language, Some(Dialect::Kansai));
}

#[test]
fn explicit_dialect_override_beats_heuristic() {
    let mut orch = orchestrator(&["west_a"], Some(Dialect::Standard));
    let req = ApiRequest {
        is_kansai: Some(false),
        body: Request::with_text("west_a".to_string(), "x".to_string()),
    };
    let (_st, act) = orch.start(&req);
    // the explicit override says standard, which is loaded: no swap
    assert!(matches!(act, Action::SetParams));
}

#[test]
fn submission_failure_prevents_waveform_phase() {
    let mut orch = orchestrator(&["f1"], Some(Dialect::Standard));
    let (st, _act) = orch.start(&request("f1", "x"));
    let (st, _act) = orch.step(st, Event::Status { code: 0 });
    let (st, act) = orch.step(st, Event::Submitted { code: -5, job_id: 0 });
    match act {
        Action::Reply { result: Err(e) } => {
            assert_eq!(e.message(), "Failed to text_to_kana, code -5");
        }
        other => panic!("expected an error reply, got {:?}", action_name(&other)),
    }
    // whatever arrives afterwards, the machine never asks for a waveform call
    let mut st = st;
    for ev in [
        Event::Status { code: 0 },
        Event::Terminal,
        Event::Submitted { code: 0, job_id: 9 },
        Event::Chunk { data: vec![1] },
    ] {
        let (next, act) = orch.step(st, ev);
        assert!(matches!(act, Action::Idle));
        st = next;
    }
}

#[test]
fn stream_failure_on_close_discards_buffer() {
    let mut orch = orchestrator(&["f1"], Some(Dialect::Standard));
    let (st, _act) = orch.start(&request("f1", "x"));
    let (st, _act) = orch.step(st, Event::Status { code: 0 });
    let (st, _act) = orch.step(st, Event::Submitted { code: 0, job_id: 1 });
    let (st, _act) = orch.step(st, Event::Chunk { data: vec![1, 2, 3] });
    let (st, _act) = orch.step(st, Event::Terminal);
    let (_st, act) = orch.step(st, Event::Status { code: -7 });
    match act {
        Action::Reply { result: Err(e) } => {
            assert_eq!(e.message(), "Failed to close_kana, code -7");
        }
        other => panic!("expected an error reply, got {:?}", action_name(&other)),
    }
}

#[test]
fn language_unload_failure_aborts_only_this_request() {
    let mut orch = orchestrator(&["west_a"], Some(Dialect::Standard));
    let (st, act) = orch.start(&request("west_a", "x"));
    assert!(matches!(act, Action::UnloadLanguage));
    let (_st, act) = orch.step(st, Event::Status { code: -4 });
    match act {
        Action::Reply { result: Err(e) } => {
            assert_eq!(e.message(), "Failed to lang_unload, code -4");
        }
        other => panic!("expected an error reply, got {:?}", action_name(&other)),
    }
    // the failed swap did not record the new dialect as loaded
    assert_eq!(orch.language, Some(Dialect::Standard));
}

#[test]
fn callback_reason_decisions() {
    assert!(reason_triggers_drain(CallbackReason::BufferFull));
    assert!(reason_triggers_drain(CallbackReason::Flush));
    assert!(reason_triggers_drain(CallbackReason::StreamClosed));
    assert!(!reason_triggers_drain(CallbackReason::Other));
    assert!(reason_fires_signal(CallbackReason::StreamClosed));
    assert!(!reason_fires_signal(CallbackReason::Flush));
    assert!(!reason_fires_signal(CallbackReason::BufferFull));
}

#[test]
fn drain_buffer_sizes_and_continuation() {
    assert_eq!(text_buffer_len(100), 100);
    assert_eq!(text_buffer_len(LEN_TEXT_BUF_MAX + 5), LEN_TEXT_BUF_MAX);
    assert_eq!(raw_buffer_len(50), 100);
    assert_eq!(raw_buffer_len(u32::MAX), LEN_RAW_BUF_MAX_BYTES);
    assert!(text_drain_continue(99, 100));
    assert!(text_drain_continue(100, 100));
    assert!(!text_drain_continue(98, 100));
    assert!(raw_drain_continue(50, 100));
    assert!(!raw_drain_continue(49, 100));
    assert_eq!(chunk_prefix(&vec![1, 2, 3, 4], 2), vec![1, 2]);
    assert_eq!(chunk_prefix(&vec![1, 2, 3, 4], 0), Vec::<u8>::new());
}

fn state_name(st: &JobState) -> &'static str {
    match st {
        JobState::SwappingUnload { .. } => "SwappingUnload",
        JobState::SwappingLoad { .. } => "SwappingLoad",
        JobState::PreparingText => "PreparingText",
        JobState::SubmittingText => "SubmittingText",
        JobState::StreamingText { .. } => "StreamingText",
        JobState::ClosingText { .. } => "ClosingText",
        JobState::PreparingWaveform { .. } => "PreparingWaveform",
        JobState::SubmittingWaveform { .. } => "SubmittingWaveform",
        JobState::StreamingWaveform { .. } => "StreamingWaveform",
        JobState::ClosingWaveform { .. } => "ClosingWaveform",
        JobState::Replied => "Replied",
    }
}

fn action_name(a: &Action) -> &'static str {
    match a {
        Action::UnloadLanguage => "UnloadLanguage",
        Action::LoadLanguage { .. } => "LoadLanguage",
        Action::SetParams => "SetParams",
        Action::SubmitText => "SubmitText",
        Action::Await => "Await",
        Action::CloseIntermediate { .. } => "CloseIntermediate",
        Action::SubmitWaveform => "SubmitWaveform",
        Action::CloseWaveform { .. } => "CloseWaveform",
        Action::Reply { .. } => "Reply",
        Action::Idle => "Idle",
    }
}

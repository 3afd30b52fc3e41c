use voicegate::codec::encode_voice_name;
use voicegate::errors::{SetupStep};
use voicegate::init::{
    init_step, InitAction, InitConfig, InitEvent, InitState, CODE_INSUFFICIENT,
};
use voicegate::language::Dialect;
use voicegate::params::{ParamBlock, SpeakerParam, TtsParam};

fn config() -> InitConfig {
    InitConfig {
        has_word_dic: true,
        has_phrase_dic: false,
        has_symbol_dic: false,
        voices: vec!["a".to_string(), "b".to_string()],
        language: Dialect::Standard,
        empty_param_size: 100,
        speaker_param_size: 8,
    }
}

fn fetched_block() -> ParamBlock {
    ParamBlock {
        global: TtsParam {
            voice_name: vec![0; 80],
            volume: 0,
            len_text_buf_bytes: 100,
            len_raw_buf_words: 50,
            text_callback: false,
            raw_callback: false,
            event_callback: false,
        },
        speakers: vec![
            SpeakerParam {
                voice_name: encode_voice_name("a"),
                speed: 0,
                pitch: 0,
                range: 0,
                pause_middle: 0,
                pause_long: 0,
                pause_sentence: 0,
            },
            SpeakerParam {
                voice_name: encode_voice_name("b"),
                speed: 0,
                pitch: 0,
                range: 0,
                pause_middle: 0,
                pause_long: 0,
                pause_sentence: 0,
            },
        ],
    }
}

#[test]
fn successful_startup_walks_every_step() {
    let cfg = config();
    let st = InitState::Initializing;

    let (st, act) = init_step(&cfg, st, InitEvent::Status { code: 0 });
    assert!(matches!(act, InitAction::ReloadWordDic));
    let (st, act) = init_step(&cfg, st, InitEvent::Status { code: 0 });
    assert!(matches!(act, InitAction::LoadVoice { index: 0 }));
    let (st, act) = init_step(&cfg, st, InitEvent::Status { code: 0 });
    assert!(matches!(act, InitAction::LoadVoice { index: 1 }));
    let (st, act) = init_step(&cfg, st, InitEvent::Status { code: 0 });
    assert!(matches!(act, InitAction::ProbeParamSize));

    // required size 116 = empty 100 + 2 records of 8 bytes
    let (st, act) = init_step(
        &cfg,
        st,
        InitEvent::Probe { code: CODE_INSUFFICIENT, required_size: 116 },
    );
    match act {
        InitAction::FetchParams { speaker_count } => assert_eq!(speaker_count, 2),
        _ => panic!("expected a fetch"),
    }
    let (st, act) = init_step(&cfg, st, InitEvent::Fetched { code: 0, block: fetched_block() });
    assert!(matches!(act, InitAction::LoadLanguage));
    let (st, act) = init_step(&cfg, st, InitEvent::Status { code: 0 });
    assert!(matches!(act, InitAction::Done));
    assert!(matches!(st, InitState::Ready { .. }));
}

#[test]
fn voice_load_failure_is_fatal_with_step_and_code() {
    let cfg = config();
    let st = InitState::LoadingVoice { index: 0 };
    let (st, act) = init_step(&cfg, st, InitEvent::Status { code: -3 });
    assert!(matches!(act, InitAction::Done));
    match st {
        InitState::Failed { error } => {
            assert_eq!(error.step, SetupStep::VoiceLoad);
            assert_eq!(error.code, -3);
            assert_eq!(error.message(), "Failed to voice_load, code -3");
        }
        _ => panic!("expected failure"),
    }
}

#[test]
fn probe_without_insufficient_status_is_fatal() {
    let cfg = config();
    let st = InitState::ProbingParamSize;
    let (st, _act) = init_step(&cfg, st, InitEvent::Probe { code: 0, required_size: 116 });
    match st {
        InitState::Failed { error } => assert_eq!(error.step, SetupStep::ParamProbe),
        _ => panic!("expected failure"),
    }
}

#[test]
fn fetched_block_with_duplicate_names_is_rejected() {
    let cfg = config();
    let mut bad = fetched_block();
    bad.speakers[1].voice_name = encode_voice_name("a");
    let st = InitState::FetchingParams { speaker_count: 2 };
    let (st, _act) = init_step(&cfg, st, InitEvent::Fetched { code: 0, block: bad });
    match st {
        InitState::Failed { error } => assert_eq!(error.step, SetupStep::ParamFetch),
        _ => panic!("expected failure"),
    }
}

#[test]
fn startup_without_dictionaries_or_voices_goes_straight_to_probe() {
    let cfg = InitConfig {
        has_word_dic: false,
        has_phrase_dic: false,
        has_symbol_dic: false,
        voices: vec![],
        language: Dialect::Kansai,
        empty_param_size: 100,
        speaker_param_size: 8,
    };
    let (st, act) = init_step(&cfg, InitState::Initializing, InitEvent::Status { code: 0 });
    assert!(matches!(act, InitAction::ProbeParamSize));
    assert!(matches!(st, InitState::ProbingParamSize));
}

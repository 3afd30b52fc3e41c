use voicegate::errors::{dec_string, Phase, SetupError, SetupStep, TtsError};

#[test]
fn decimal_rendering() {
    assert_eq!(dec_string(0), "0");
    assert_eq!(dec_string(7), "7");
    assert_eq!(dec_string(44100), "44100");
    assert_eq!(dec_string(-1), "-1");
    assert_eq!(dec_string(-2048), "-2048");
    assert_eq!(dec_string(i32::MAX), "2147483647");
    assert_eq!(dec_string(i32::MIN), "-2147483648");
}

#[test]
fn voice_not_found_message_names_the_voice() {
    let e = TtsError::VoiceNotFound { voice_id: "akari".to_string() };
    assert_eq!(e.message(), "Failed to find speaker from tts_param akari");
}

#[test]
fn per_phase_messages_carry_the_code() {
    let e = TtsError::Submission { phase: Phase::ToIntermediate, set_param: false, code: -5 };
    assert_eq!(e.message(), "Failed to text_to_kana, code -5");
    let e = TtsError::Submission { phase: Phase::ToWaveform, set_param: true, code: 3 };
    assert_eq!(e.message(), "Failed to set_param (kana_to_speech), code 3");
    let e = TtsError::Stream { phase: Phase::ToWaveform, code: -9 };
    assert_eq!(e.message(), "Failed to close_speech, code -9");
    let e = TtsError::LanguageSwitch { unload: true, code: -2 };
    assert_eq!(e.message(), "Failed to lang_unload, code -2");
}

#[test]
fn oversize_messages_name_the_phase() {
    let e = TtsError::Oversize { phase: Phase::ToWaveform };
    assert_eq!(e.message(), "Waveform output too large");
    let e = TtsError::Oversize { phase: Phase::ToIntermediate };
    assert_eq!(e.message(), "Intermediate output too large");
}

#[test]
fn setup_error_messages() {
    let e = SetupError { step: SetupStep::EngineInit, code: -100 };
    assert_eq!(e.message(), "Failed to engine init, code -100");
    let e = SetupError { step: SetupStep::VoiceLoad, code: 1 };
    assert_eq!(e.message(), "Failed to voice_load, code 1");
}

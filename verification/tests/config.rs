use dictation::config::{
    AudioConfig, Config, IpcConfig, UiConfig, WhisperConfig, DEFAULT_VAD_THRESHOLD,
};
use dictation::types::{ModelInfo, SessionStatus, TranscriptionSession};

#[test]
fn default_config_has_the_documented_values() {
    let config = Config::default();
    assert_eq!(
        config.whisper,
        WhisperConfig {
            model_path: "models/ggml-base.en.bin".to_string(),
            model_timeout_seconds: 300,
            vad_threshold: 0.1f32.to_bits(),
            language: Some("en".to_string()),
        }
    );
    assert_eq!(
        config.audio,
        AudioConfig { device: None, sample_rate: 16000, channels: 1, buffer_size: 1024 }
    );
    assert_eq!(
        config.ui,
        UiConfig { popup_width: 400, popup_height: 200, auto_copy: false, show_notifications: true }
    );
    assert_eq!(
        config.ipc,
        IpcConfig { socket_path: "/tmp/dictation.sock".to_string(), timeout_seconds: 30 }
    );
}

#[test]
fn default_vad_threshold_is_one_tenth() {
    assert_eq!(f32::from_bits(DEFAULT_VAD_THRESHOLD), 0.1);
}

#[test]
fn config_clone_is_equal() {
    let mut config = Config::default();
    config.audio.device = Some("USB microphone".to_string());
    config.whisper.language = None;
    assert_eq!(config.clone(), config);
}

#[test]
fn new_session_is_recording_without_text() {
    let session = TranscriptionSession::new(42, 1_000);
    assert_eq!(session.id, 42);
    assert_eq!(session.status, SessionStatus::Recording);
    assert_eq!(session.text, "");
    assert_eq!(session.confidence, None);
    assert_eq!(session.created_at, 1_000);
    assert_eq!(session.clone(), session);
}

#[test]
fn session_status_clone_keeps_the_reason() {
    let failed = SessionStatus::Failed("no model".to_string());
    assert_eq!(failed.clone(), failed);
    assert_ne!(failed, SessionStatus::Completed);
    assert_eq!(SessionStatus::Processing.clone(), SessionStatus::Processing);
}

#[test]
fn model_info_clone_is_equal() {
    let info = ModelInfo {
        name: "base.en".to_string(),
        path: "models/ggml-base.en.bin".to_string(),
        loaded: true,
        last_used: Some(17),
    };
    assert_eq!(info.clone(), info);
}

use dictation::ipc::DaemonMessage;
use dictation::popup::{
    forward, start_reply, Config, DictationApp, Forwarded, StartReply, StopEffect, UIConfig,
    UiMessage, WhisperConfig, DEFAULT_FUZZY_MATCH_THRESHOLD, DEFAULT_MODEL_TIMEOUT_SECONDS,
};
use dictation::types::TranscriptionSession;

fn update(text: &str) -> UiMessage {
    UiMessage::TranscriptionUpdate(text.to_string(), false)
}

fn complete(text: &str) -> UiMessage {
    UiMessage::TranscriptionComplete(text.to_string())
}

#[test]
fn unset_popup_settings_fall_back_to_defaults() {
    let config = Config::empty();
    assert_eq!(config, Config { whisper: None, ui: None });
    assert!(config.auto_copy());
    assert!(config.auto_close_after_copy());
    assert_eq!(config.model(), "distil-large-v3");
    assert_eq!(config.model_timeout_seconds(), 300);
    assert_eq!(config.model_timeout_seconds(), DEFAULT_MODEL_TIMEOUT_SECONDS);
    assert_eq!(config.language(), "en");
    assert_eq!(f32::from_bits(config.fuzzy_match_threshold()), 0.8);
    assert_eq!(config.fuzzy_match_threshold(), DEFAULT_FUZZY_MATCH_THRESHOLD);
}

#[test]
fn partly_set_popup_settings_fall_back_field_by_field() {
    let config = Config {
        whisper: Some(WhisperConfig {
            model: None,
            model_timeout_seconds: Some(60),
            language: Some("de".to_string()),
            fuzzy_match_threshold: None,
        }),
        ui: Some(UIConfig { auto_copy: Some(false), auto_close_after_copy: None }),
    };
    assert!(!config.auto_copy());
    assert!(config.auto_close_after_copy());
    assert_eq!(config.model(), "distil-large-v3");
    assert_eq!(config.model_timeout_seconds(), 60);
    assert_eq!(config.language(), "de");
    assert_eq!(f32::from_bits(config.fuzzy_match_threshold()), 0.8);
}

#[test]
fn set_ui_replaces_the_window_settings_only() {
    let mut config = Config::empty();
    config.set_whisper("tiny".to_string(), 90, "fr".to_string(), 0.5f32.to_bits());
    config.set_ui(false, true);
    assert!(!config.auto_copy());
    assert!(config.auto_close_after_copy());
    assert_eq!(config.model(), "tiny");
    config.set_ui(true, false);
    assert_eq!(
        config.ui,
        Some(UIConfig { auto_copy: Some(true), auto_close_after_copy: Some(false) })
    );
    assert_eq!(config.language(), "fr");
}

#[test]
fn set_whisper_replaces_the_model_settings_only() {
    let mut config = Config::empty();
    config.set_ui(false, false);
    config.set_whisper("tiny".to_string(), 90, "fr".to_string(), 0.5f32.to_bits());
    assert_eq!(config.model(), "tiny");
    assert_eq!(config.model_timeout_seconds(), 90);
    assert_eq!(config.language(), "fr");
    assert_eq!(f32::from_bits(config.fuzzy_match_threshold()), 0.5);
    assert!(!config.auto_copy());
    assert!(!config.auto_close_after_copy());
}

#[test]
fn window_opens_with_the_text_given() {
    let app = DictationApp::new(Some("hello".to_string()));
    assert_eq!(app.text, "hello");
    assert_eq!(app.complete_text, "");
    assert!(!app.daemon_connected && !app.is_recording && !app.model_loading);
    assert!(!app.show_settings);
    assert_eq!(app.session_id, None);
    assert_eq!(DictationApp::new(None).text, "");
}

#[test]
fn started_recording_clears_the_texts() {
    let mut app = DictationApp::new(Some("old".to_string()));
    app.process_message(&complete("older"), false);
    assert!(!app.process_message(&UiMessage::RecordingStarted(9), true));
    assert_eq!(app.session_id, Some(9));
    assert!(app.is_recording);
    assert_eq!(app.text, "");
    assert_eq!(app.complete_text, "");
}

#[test]
fn updates_are_joined_by_single_spaces() {
    let mut app = DictationApp::new(None);
    assert!(!app.process_message(&update("one"), true));
    assert_eq!(app.text, "one");
    app.process_message(&update("two"), true);
    assert_eq!(app.text, "one two");
    app.process_message(&update("  "), true);
    assert_eq!(app.text, "one two  ");
    app.process_message(&update(""), true);
    assert_eq!(app.text, "one two  ");
    app.process_message(&update("three"), true);
    assert_eq!(app.text, "one two   three");
}

#[test]
fn completed_transcripts_accumulate_and_replace_the_display() {
    let mut app = DictationApp::new(None);
    app.process_message(&UiMessage::RecordingStarted(1), true);
    app.process_message(&update("partial"), true);
    assert!(app.process_message(&complete("First sentence."), true));
    assert_eq!(app.complete_text, "First sentence.");
    assert_eq!(app.text, "First sentence.");
    assert!(!app.is_recording);
    assert!(!app.process_message(&complete("Second."), false));
    assert_eq!(app.text, "First sentence. Second.");
    assert_eq!(app.complete_text, "First sentence. Second.");
}

#[test]
fn blank_transcript_is_not_copied() {
    let mut app = DictationApp::new(None);
    assert!(!app.process_message(&complete("  "), true));
    assert_eq!(app.text, "  ");
    assert!(!app.has_text());
    assert!(!app.process_message(&UiMessage::RecordingStopped, true));
}

#[test]
fn stopped_recording_copies_only_when_asked_and_there_is_text() {
    let mut app = DictationApp::new(None);
    app.process_message(&UiMessage::RecordingStarted(1), true);
    assert!(!app.process_message(&UiMessage::RecordingStopped, true));
    assert!(!app.is_recording);
    app.process_message(&update("words"), true);
    assert!(app.process_message(&UiMessage::RecordingStopped, true));
    assert!(!app.process_message(&UiMessage::RecordingStopped, false));
}

#[test]
fn model_and_connection_messages_set_their_flags() {
    let mut app = DictationApp::new(None);
    app.process_message(&UiMessage::DaemonConnected(true), true);
    assert!(app.daemon_connected);
    app.process_message(&UiMessage::ModelLoading, true);
    assert!(app.model_loading);
    app.process_message(&UiMessage::ModelLoaded, true);
    assert!(!app.model_loading);
    app.process_message(&UiMessage::ModelLoading, true);
    app.process_message(&UiMessage::ModelUnloaded, true);
    assert!(!app.model_loading);
    app.process_message(&UiMessage::DaemonConnected(false), true);
    assert!(!app.daemon_connected);
}

#[test]
fn cleared_session_and_errors() {
    let mut app = DictationApp::new(None);
    app.process_message(&complete("something"), false);
    let before = DictationApp::new(None);
    assert!(!app.process_message(&UiMessage::Error("lost".to_string()), true));
    assert_eq!(app.text, "something");
    assert!(!app.process_message(&UiMessage::SessionCleared, true));
    assert_eq!(app, before);
}

#[test]
fn stop_button_ends_a_running_recording() {
    let mut app = DictationApp::new(None);
    assert_eq!(app.stop_recording(true), StopEffect { send_stop: false, copy: false });
    app.process_message(&UiMessage::RecordingStarted(1), true);
    app.process_message(&update("words"), true);
    assert_eq!(app.stop_recording(true), StopEffect { send_stop: true, copy: true });
    assert!(!app.is_recording);
    assert_eq!(app.stop_recording(true), StopEffect { send_stop: false, copy: false });
    app.process_message(&UiMessage::RecordingStarted(2), true);
    assert_eq!(app.stop_recording(true), StopEffect { send_stop: true, copy: false });
    app.process_message(&UiMessage::RecordingStarted(3), true);
    app.process_message(&update("words"), true);
    assert_eq!(app.stop_recording(false), StopEffect { send_stop: true, copy: false });
}

fn session(id: u128, text: &str) -> TranscriptionSession {
    let mut session = TranscriptionSession::new(id, 0);
    session.text = text.to_string();
    session
}

#[test]
fn start_reply_tells_started_refused_and_unexpected_apart() {
    assert_eq!(start_reply(DaemonMessage::RecordingStarted(4)), StartReply::Started(4));
    assert_eq!(
        start_reply(DaemonMessage::Error("no model".to_string())),
        StartReply::Refused("no model".to_string())
    );
    assert_eq!(
        start_reply(DaemonMessage::RecordingStopped),
        StartReply::Unexpected(DaemonMessage::RecordingStopped)
    );
}

#[test]
fn forward_passes_on_what_concerns_the_session() {
    let own = DaemonMessage::TranscriptionUpdate {
        session_id: 4,
        partial_text: "hi".to_string(),
        is_final: true,
    };
    assert_eq!(
        forward(4, own.clone()),
        Forwarded {
            message: Some(UiMessage::TranscriptionUpdate("hi".to_string(), true)),
            done: false
        }
    );
    assert_eq!(forward(5, own), Forwarded { message: None, done: false });
    assert_eq!(
        forward(4, DaemonMessage::TranscriptionComplete(session(4, "all"))),
        Forwarded {
            message: Some(UiMessage::TranscriptionComplete("all".to_string())),
            done: false
        }
    );
    assert_eq!(
        forward(4, DaemonMessage::TranscriptionComplete(session(9, "all"))),
        Forwarded { message: None, done: false }
    );
}

#[test]
fn forward_ends_with_the_stop_only() {
    assert_eq!(
        forward(4, DaemonMessage::RecordingStopped),
        Forwarded { message: Some(UiMessage::RecordingStopped), done: true }
    );
    assert_eq!(
        forward(4, DaemonMessage::SessionCleared),
        Forwarded { message: Some(UiMessage::SessionCleared), done: false }
    );
    assert_eq!(
        forward(4, DaemonMessage::Error("lost".to_string())),
        Forwarded { message: Some(UiMessage::Error("lost".to_string())), done: false }
    );
    for message in [
        DaemonMessage::RecordingStarted(4),
        DaemonMessage::AudioLevel(0),
        DaemonMessage::VoiceActivityDetected,
        DaemonMessage::ProcessingStarted,
    ] {
        assert_eq!(forward(4, message), Forwarded { message: None, done: false });
    }
}

#[test]
fn process_messages_hands_out_the_texts_to_copy() {
    let messages = vec![
        UiMessage::DaemonConnected(true),
        UiMessage::RecordingStarted(1),
        update("so"),
        update("far"),
        UiMessage::RecordingStopped,
        complete("First."),
        complete("  "),
        complete("Second."),
        UiMessage::SessionCleared,
        UiMessage::RecordingStopped,
    ];
    let mut app = DictationApp::new(None);
    let copies = app.process_messages(&messages, true);
    assert_eq!(copies, vec!["so far", "First.", "First.  ", "First.   Second."]);
    assert_eq!(app.text, "");
    assert!(app.daemon_connected);

    let mut step_by_step = DictationApp::new(None);
    for message in &messages {
        step_by_step.process_message(message, true);
    }
    assert_eq!(step_by_step, app);

    let mut quiet = DictationApp::new(None);
    assert_eq!(quiet.process_messages(&messages, false), Vec::<String>::new());
    assert_eq!(quiet, app);
    assert_eq!(quiet.process_messages(&Vec::new(), true), Vec::<String>::new());
}

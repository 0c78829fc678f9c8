use dictation::config::{Config, WhisperConfig};
use dictation::model::{
    no_speech_text, normalize_transcript, sentinel_if_empty, LoadDecision, LoadOutcome,
    ModelError, ModelState, TranscriptOutcome, WhisperManager, NANOS_PER_SECOND,
};
use dictation::text::trim;

const SECOND: u128 = 1_000_000_000;

fn whisper_config(timeout_seconds: u64) -> WhisperConfig {
    WhisperConfig {
        model_path: "models/tiny.bin".to_string(),
        model_timeout_seconds: timeout_seconds,
        vad_threshold: 0.1f32.to_bits(),
        language: Some("en".to_string()),
    }
}

fn loaded_manager(timeout_seconds: u64, at: u128) -> WhisperManager {
    let mut manager = WhisperManager::new(&whisper_config(timeout_seconds));
    assert_eq!(manager.ensure_loaded(at), LoadDecision::Load);
    assert_eq!(manager.load_finished(LoadOutcome::Loaded, at), Ok(()));
    manager
}

#[test]
fn new_manager_has_no_model() {
    let manager = WhisperManager::new(&whisper_config(300));
    assert!(!manager.is_loaded());
    assert_eq!(manager.state(), ModelState::Unloaded);
    assert_eq!(manager.config(), &whisper_config(300));
}

#[test]
fn ensure_loaded_asks_for_a_load_when_unloaded() {
    let mut manager = WhisperManager::new(&whisper_config(300));
    assert_eq!(manager.ensure_loaded(10), LoadDecision::Load);
    assert!(!manager.is_loaded());
    assert_eq!(manager.load_finished(LoadOutcome::Loaded, 12), Ok(()));
    assert!(manager.is_loaded());
    assert_eq!(manager.state(), ModelState::Loaded { last_used: 12 });
}

#[test]
fn ensure_loaded_only_refreshes_when_loaded() {
    let mut manager = loaded_manager(300, 10);
    assert_eq!(manager.ensure_loaded(99), LoadDecision::AlreadyLoaded);
    assert_eq!(manager.state(), ModelState::Loaded { last_used: 99 });
}

#[test]
fn eight_callers_cause_one_load() {
    let mut manager = WhisperManager::new(&whisper_config(300));
    let mut loads = 0;
    for caller in 0..8u128 {
        match manager.ensure_loaded(caller) {
            LoadDecision::Load => {
                loads += 1;
                assert_eq!(manager.load_finished(LoadOutcome::Loaded, caller), Ok(()));
            }
            LoadDecision::AlreadyLoaded => {}
        }
        assert!(manager.is_loaded());
    }
    assert_eq!(loads, 1);
    assert_eq!(manager.state(), ModelState::Loaded { last_used: 7 });
}

#[test]
fn missing_model_file_is_reported_with_its_path() {
    let mut manager = WhisperManager::new(&whisper_config(300));
    assert_eq!(manager.ensure_loaded(1), LoadDecision::Load);
    let result = manager.load_finished(LoadOutcome::FileMissing, 2);
    assert_eq!(result, Err(ModelError::ModelFileNotFound("models/tiny.bin".to_string())));
    assert!(!manager.is_loaded());
    assert_eq!(
        result.unwrap_err().message(),
        "Whisper model not found at \"models/tiny.bin\". Please download a model file."
    );
}

#[test]
fn failed_load_leaves_the_model_unloaded_and_can_be_retried() {
    let mut manager = WhisperManager::new(&whisper_config(300));
    assert_eq!(manager.ensure_loaded(1), LoadDecision::Load);
    let result = manager.load_finished(LoadOutcome::Failed("bad magic".to_string()), 2);
    assert_eq!(result, Err(ModelError::LoadFailed("bad magic".to_string())));
    assert_eq!(result.unwrap_err().message(), "bad magic");
    assert!(!manager.is_loaded());
    assert_eq!(manager.ensure_loaded(3), LoadDecision::Load);
    assert_eq!(manager.load_finished(LoadOutcome::Loaded, 4), Ok(()));
    assert!(manager.is_loaded());
}

#[test]
fn transcribe_fails_without_a_model() {
    let mut manager = WhisperManager::new(&whisper_config(300));
    let result = manager.transcribe_audio(TranscriptOutcome::Text("hello".to_string()), 5);
    assert_eq!(result, Err(ModelError::NotLoaded));
    assert_eq!(ModelError::NotLoaded.message(), "Whisper model not loaded");
    assert!(!manager.is_loaded());
}

#[test]
fn transcribe_on_empty_text_yields_the_sentinel() {
    let mut manager = loaded_manager(300, 1);
    let result = manager.transcribe_audio(TranscriptOutcome::Text(String::new()), 5);
    assert_eq!(result, Ok("no speech detected".to_string()));
    assert_eq!(result.unwrap(), no_speech_text());
    let blank = manager.transcribe_audio(TranscriptOutcome::Text(" \n\t  ".to_string()), 6);
    assert_eq!(blank, Ok(no_speech_text()));
    assert_ne!(blank.unwrap(), "");
}

#[test]
fn transcribe_trims_the_text_and_stamps_the_model() {
    let mut manager = loaded_manager(300, 1);
    let result =
        manager.transcribe_audio(TranscriptOutcome::Text("  Hello,  world. \n".to_string()), 77);
    assert_eq!(result, Ok("Hello,  world.".to_string()));
    assert_eq!(manager.state(), ModelState::Loaded { last_used: 77 });
}

#[test]
fn engine_error_becomes_transcription_failed() {
    let mut manager = loaded_manager(300, 1);
    let result = manager.transcribe_audio(TranscriptOutcome::EngineError("oom".to_string()), 9);
    assert_eq!(result, Err(ModelError::TranscriptionFailed("oom".to_string())));
    assert_eq!(result.unwrap_err().message(), "Transcription failed: oom");
    assert_eq!(manager.state(), ModelState::Loaded { last_used: 9 });
}

#[test]
fn unfinished_worker_becomes_task_failed_and_leaves_the_stamp() {
    let mut manager = loaded_manager(300, 1);
    let result = manager.transcribe_audio(TranscriptOutcome::TaskFailed("panicked".to_string()), 9);
    assert_eq!(result, Err(ModelError::TaskFailed("panicked".to_string())));
    assert_eq!(result.unwrap_err().message(), "Task failed: panicked");
    assert_eq!(manager.state(), ModelState::Loaded { last_used: 1 });
}

#[test]
fn model_is_kept_until_the_timeout_has_passed() {
    let mut manager = loaded_manager(300, 1000 * SECOND);
    assert!(!manager.unload_if_timeout(1000 * SECOND));
    assert!(!manager.unload_if_timeout(1299 * SECOND));
    assert!(!manager.unload_if_timeout(1300 * SECOND));
    assert!(manager.is_loaded());
    assert!(manager.unload_if_timeout(1300 * SECOND + 1));
    assert!(!manager.is_loaded());
    assert_eq!(manager.state(), ModelState::Unloaded);
    assert!(!manager.unload_if_timeout(9000 * SECOND));
}

#[test]
fn a_clock_behind_the_last_use_does_not_unload() {
    let mut manager = loaded_manager(0, 1000 * SECOND);
    assert!(!manager.unload_if_timeout(10 * SECOND));
    assert!(manager.is_loaded());
    assert!(manager.unload_if_timeout(1000 * SECOND + 1));
}

#[test]
fn unloading_is_undone_by_the_next_load() {
    let mut manager = loaded_manager(1, 0);
    assert!(manager.unload_if_timeout(5 * SECOND));
    assert_eq!(manager.ensure_loaded(6 * SECOND), LoadDecision::Load);
    assert_eq!(manager.load_finished(LoadOutcome::Loaded, 7 * SECOND), Ok(()));
    assert_eq!(manager.state(), ModelState::Loaded { last_used: 7 * SECOND });
}

#[test]
fn the_largest_timeout_does_not_overflow() {
    let mut manager = loaded_manager(u64::MAX, 0);
    assert!(!manager.unload_if_timeout(u64::MAX as u128 * NANOS_PER_SECOND));
    assert!(manager.unload_if_timeout(u64::MAX as u128 * NANOS_PER_SECOND + 1));
}

#[test]
fn sentinel_replaces_only_the_empty_text() {
    assert_eq!(sentinel_if_empty(String::new()), "no speech detected");
    assert_eq!(sentinel_if_empty(" ".to_string()), " ");
    assert_eq!(sentinel_if_empty("word".to_string()), "word");
    assert_eq!(no_speech_text().chars().count(), 18);
}

#[test]
fn normalize_transcript_trims_then_checks_for_nothing() {
    assert_eq!(normalize_transcript(""), "no speech detected");
    assert_eq!(normalize_transcript("\u{3000}\u{a0}"), "no speech detected");
    assert_eq!(normalize_transcript(" a b "), "a b");
}

#[test]
fn trim_removes_whitespace_at_both_ends_only() {
    assert_eq!(trim(""), "");
    assert_eq!(trim("   "), "");
    assert_eq!(trim("x"), "x");
    assert_eq!(trim("  two words\t\r\n"), "two words");
    assert_eq!(trim("\u{a0}\u{2003}caf\u{e9} \u{3000}"), "caf\u{e9}");
    assert_eq!(trim("\u{200b}zero width is kept\u{200b}"), "\u{200b}zero width is kept\u{200b}");
    for s in ["", " a", "a ", " a  b ", "\n\n", "\u{85}x\u{1680}"] {
        assert_eq!(trim(s), s.trim());
    }
}

#[test]
fn default_config_feeds_the_manager() {
    let config = Config::default();
    let manager = WhisperManager::new(&config.whisper);
    assert_eq!(manager.config().model_path, "models/ggml-base.en.bin");
    assert_eq!(manager.config().model_timeout_seconds, 300);
}

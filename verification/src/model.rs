//! Lifecycle of the speech model: loaded on demand, released when idle.
//!
//! The manager keeps the books; the engine itself lives with the caller. A
//! caller that holds the manager exclusively asks `ensure_loaded`, loads the
//! model where told to, and reports with `load_finished`. It runs a
//! transcription only while `is_loaded` holds and hands what the engine said
//! to `transcribe_audio`. When `unload_if_timeout` answers `true` it drops the
//! engine's handle.

use crate::config::{WhisperConfig, WhisperConfigView};
use crate::text::{trim, trimmed};
use vstd::prelude::*;
use vstd::string::*;

verus! {

/// Nanoseconds in a second.
pub const NANOS_PER_SECOND: u128 = 1_000_000_000;

/// Whether a model is in memory, and when it last served.
#[derive(Clone, Copy, Debug, PartialEq, Eq, Structural)]
pub enum ModelState {
    Unloaded,
    Loaded { last_used: u128 },
}

/// What `ensure_loaded` asks of the caller.
#[derive(Clone, Copy, Debug, PartialEq, Eq, Structural)]
pub enum LoadDecision {
    /// The model is in memory: nothing to do.
    AlreadyLoaded,
    /// The model must be loaded from the configured path.
    Load,
}

/// How an attempt to load the model ended.
#[derive(Debug, PartialEq, Eq)]
pub enum LoadOutcome {
    Loaded,
    /// No file lies at the configured path.
    FileMissing,
    /// The engine refused the file, for the reason given.
    Failed(String),
}

/// `LoadOutcome` as a mathematical value.
pub enum LoadOutcomeView {
    Loaded,
    FileMissing,
    Failed(Seq<char>),
}

impl View for LoadOutcome {
    type V = LoadOutcomeView;

    open spec fn view(&self) -> LoadOutcomeView {
        match *self {
            LoadOutcome::Loaded => LoadOutcomeView::Loaded,
            LoadOutcome::FileMissing => LoadOutcomeView::FileMissing,
            LoadOutcome::Failed(reason) => LoadOutcomeView::Failed(reason@),
        }
    }
}

/// How a run of the engine on one session's audio ended.
#[derive(Debug, PartialEq, Eq)]
pub enum TranscriptOutcome {
    /// The engine ran and produced this text, possibly none.
    Text(String),
    /// The engine ran and failed.
    EngineError(String),
    /// The worker that should have run the engine did not finish.
    TaskFailed(String),
}

/// `TranscriptOutcome` as a mathematical value.
pub enum TranscriptOutcomeView {
    Text(Seq<char>),
    EngineError(Seq<char>),
    TaskFailed(Seq<char>),
}

impl View for TranscriptOutcome {
    type V = TranscriptOutcomeView;

    open spec fn view(&self) -> TranscriptOutcomeView {
        match *self {
            TranscriptOutcome::Text(text) => TranscriptOutcomeView::Text(text@),
            TranscriptOutcome::EngineError(reason) => TranscriptOutcomeView::EngineError(reason@),
            TranscriptOutcome::TaskFailed(reason) => TranscriptOutcomeView::TaskFailed(reason@),
        }
    }
}

/// What can go wrong with the model.
#[derive(Debug, PartialEq, Eq)]
pub enum ModelError {
    /// No file lies at the path, which is carried along.
    ModelFileNotFound(String),
    LoadFailed(String),
    NotLoaded,
    TranscriptionFailed(String),
    TaskFailed(String),
}

/// `ModelError` as a mathematical value.
pub enum ModelErrorView {
    ModelFileNotFound(Seq<char>),
    LoadFailed(Seq<char>),
    NotLoaded,
    TranscriptionFailed(Seq<char>),
    TaskFailed(Seq<char>),
}

impl View for ModelError {
    type V = ModelErrorView;

    open spec fn view(&self) -> ModelErrorView {
        match *self {
            ModelError::ModelFileNotFound(path) => ModelErrorView::ModelFileNotFound(path@),
            ModelError::LoadFailed(reason) => ModelErrorView::LoadFailed(reason@),
            ModelError::NotLoaded => ModelErrorView::NotLoaded,
            ModelError::TranscriptionFailed(reason) => ModelErrorView::TranscriptionFailed(reason@),
            ModelError::TaskFailed(reason) => ModelErrorView::TaskFailed(reason@),
        }
    }
}

impl ModelErrorView {
    /// The error in words, as a client is told of it.
    pub open spec fn message(self) -> Seq<char> {
        match self {
            ModelErrorView::ModelFileNotFound(path) => "Whisper model not found at \""@ + path
                + "\". Please download a model file."@,
            ModelErrorView::LoadFailed(reason) => reason,
            ModelErrorView::NotLoaded => "Whisper model not loaded"@,
            ModelErrorView::TranscriptionFailed(reason) => "Transcription failed: "@ + reason,
            ModelErrorView::TaskFailed(reason) => "Task failed: "@ + reason,
        }
    }
}

impl ModelError {
    /// The error in words.
    pub fn message(&self) -> (out: String)
        ensures
            out@ == self@.message(),
    {
        match self {
            ModelError::ModelFileNotFound(path) => String::from_str(
                "Whisper model not found at \"",
            ).concat(path.as_str()).concat("\". Please download a model file."),
            ModelError::LoadFailed(reason) => reason.clone(),
            ModelError::NotLoaded => String::from_str("Whisper model not loaded"),
            ModelError::TranscriptionFailed(reason) => String::from_str(
                "Transcription failed: ",
            ).concat(reason.as_str()),
            ModelError::TaskFailed(reason) => String::from_str("Task failed: ").concat(
                reason.as_str(),
            ),
        }
    }
}

/// The text that stands for "the engine ran and heard nothing".
pub open spec fn no_speech() -> Seq<char> {
    "no speech detected"@
}

/// What a client is given for the engine's `raw` text: the text without the
/// whitespace around it, or `no_speech()` where nothing is left.
pub open spec fn normalized(raw: Seq<char>) -> Seq<char> {
    or_no_speech(trimmed(raw))
}

/// `text`, or `no_speech()` in place of the empty text.
pub open spec fn or_no_speech(text: Seq<char>) -> Seq<char> {
    if text.len() == 0 {
        no_speech()
    } else {
        text
    }
}

/// The text that stands for "the engine ran and heard nothing". It is not
/// empty, so a transcript never is.
pub fn no_speech_text() -> (out: String)
    ensures
        out@ == no_speech(),
        out@.len() == 18,
{
    proof {
        reveal_strlit("no speech detected");
    }
    String::from_str("no speech detected")
}

/// Puts the sentinel in place of an empty transcript and leaves any other
/// transcript as it is.
pub fn sentinel_if_empty(text: String) -> (out: String)
    ensures
        out@ == or_no_speech(text@),
        out@.len() > 0,
{
    if text.as_str().is_empty() {
        no_speech_text()
    } else {
        text
    }
}

/// Trims the engine's text and puts the sentinel in place of nothing.
pub fn normalize_transcript(raw: &str) -> (out: String)
    ensures
        out@ == normalized(raw@),
        out@.len() > 0,
{
    sentinel_if_empty(trim(raw))
}

/// Owner of the model's state.
#[derive(Debug)]
pub struct WhisperManager {
    config: WhisperConfig,
    state: ModelState,
}

/// `WhisperManager` as a mathematical value.
pub struct WhisperManagerView {
    pub config: WhisperConfigView,
    pub state: ModelState,
}

impl WhisperManagerView {
    /// The idle time allowed, in nanoseconds.
    pub open spec fn timeout(self) -> int {
        self.config.model_timeout_seconds * NANOS_PER_SECOND
    }

    /// Time since the model last served; zero where `now` lies before that,
    /// and where no model is loaded.
    pub open spec fn idle_for(self, now: u128) -> int {
        match self.state {
            ModelState::Loaded { last_used } => if now >= last_used {
                now - last_used
            } else {
                0
            },
            ModelState::Unloaded => 0,
        }
    }

    pub open spec fn is_loaded(self) -> bool {
        self.state is Loaded
    }

    /// The manager with its model stamped as used at `now`.
    pub open spec fn touched(self, now: u128) -> WhisperManagerView {
        WhisperManagerView { state: ModelState::Loaded { last_used: now }, ..self }
    }

    /// `ensure_loaded` on a manager: a loaded model is stamped, an unloaded
    /// one is left for the caller to load.
    pub open spec fn ensure_loaded(self, now: u128) -> (WhisperManagerView, LoadDecision) {
        if self.is_loaded() {
            (self.touched(now), LoadDecision::AlreadyLoaded)
        } else {
            (self, LoadDecision::Load)
        }
    }

    /// `load_finished` on a manager: success makes it loaded and stamps it,
    /// failure leaves it as it was.
    pub open spec fn load_finished(self, outcome: LoadOutcomeView, now: u128) -> (
        WhisperManagerView,
        Result<(), ModelErrorView>,
    ) {
        match outcome {
            LoadOutcomeView::Loaded => (self.touched(now), Ok(())),
            LoadOutcomeView::FileMissing => (
                self,
                Err(ModelErrorView::ModelFileNotFound(self.config.model_path)),
            ),
            LoadOutcomeView::Failed(reason) => (self, Err(ModelErrorView::LoadFailed(reason))),
        }
    }

    /// `unload_if_timeout` on a manager: a model idle for longer than the
    /// timeout is released.
    pub open spec fn unload_if_timeout(self, now: u128) -> (WhisperManagerView, bool) {
        if self.is_loaded() && self.idle_for(now) > self.timeout() {
            (WhisperManagerView { state: ModelState::Unloaded, ..self }, true)
        } else {
            (self, false)
        }
    }

    /// `transcribe_audio` on a manager.
    pub open spec fn transcribe_audio(self, outcome: TranscriptOutcomeView, now: u128) -> (
        WhisperManagerView,
        Result<Seq<char>, ModelErrorView>,
    ) {
        if !self.is_loaded() {
            (self, Err(ModelErrorView::NotLoaded))
        } else {
            match outcome {
                TranscriptOutcomeView::Text(raw) => (self.touched(now), Ok(normalized(raw))),
                TranscriptOutcomeView::EngineError(reason) => (
                    self.touched(now),
                    Err(ModelErrorView::TranscriptionFailed(reason)),
                ),
                TranscriptOutcomeView::TaskFailed(reason) => (
                    self,
                    Err(ModelErrorView::TaskFailed(reason)),
                ),
            }
        }
    }

    /// One caller's pass through the loading protocol at `now`, with a load
    /// that succeeds: the manager afterwards, and whether a load took place.
    pub open spec fn load_pass(self, now: u128) -> (WhisperManagerView, bool) {
        let (asked, decision) = self.ensure_loaded(now);
        match decision {
            LoadDecision::AlreadyLoaded => (asked, false),
            LoadDecision::Load => (asked.load_finished(LoadOutcomeView::Loaded, now).0, true),
        }
    }

    /// The passes of several callers, one after the other, at the times
    /// given: the manager afterwards, and how many loads took place.
    pub open spec fn load_passes(self, times: Seq<u128>) -> (WhisperManagerView, nat)
        decreases times.len(),
    {
        if times.len() == 0 {
            (self, 0)
        } else {
            let (before, loads) = self.load_passes(times.drop_last());
            let (after, loaded) = before.load_pass(times.last());
            (
                after,
                if loaded {
                    loads + 1
                } else {
                    loads
                },
            )
        }
    }
}

impl View for WhisperManager {
    type V = WhisperManagerView;

    closed spec fn view(&self) -> WhisperManagerView {
        WhisperManagerView { config: self.config@, state: self.state }
    }
}

impl WhisperManager {
    /// A manager with no model loaded.
    pub fn new(config: &WhisperConfig) -> (out: Self)
        ensures
            out@ == (WhisperManagerView { config: config@, state: ModelState::Unloaded }),
    {
        WhisperManager { config: config.clone(), state: ModelState::Unloaded }
    }

    /// The settings the manager was made with.
    pub fn config(&self) -> (out: &WhisperConfig)
        ensures
            out@ == self@.config,
    {
        &self.config
    }

    /// Unloaded, or loaded and last used when.
    pub fn state(&self) -> (out: ModelState)
        ensures
            out == self@.state,
    {
        self.state
    }

    /// Whether a model is in memory.
    pub fn is_loaded(&self) -> (out: bool)
        ensures
            out == self@.is_loaded(),
    {
        match self.state {
            ModelState::Loaded { .. } => true,
            ModelState::Unloaded => false,
        }
    }

    /// Says whether the model has to be loaded before it can serve.
    ///
    /// With a model in memory the answer is `AlreadyLoaded` and the model is
    /// stamped as used at `now`. Without one the answer is `Load` and nothing
    /// changes: the caller loads the model and reports with `load_finished`.
    pub fn ensure_loaded(&mut self, now: u128) -> (out: LoadDecision)
        ensures
            (final(self)@, out) == old(self)@.ensure_loaded(now),
    {
        match self.state {
            ModelState::Loaded { .. } => {
                self.state = ModelState::Loaded { last_used: now };
                LoadDecision::AlreadyLoaded
            },
            ModelState::Unloaded => LoadDecision::Load,
        }
    }

    /// Takes note of how a load ended.
    ///
    /// After `Loaded` the model counts as in memory, used at `now`. After
    /// `FileMissing` the result is `ModelFileNotFound` with the configured
    /// path, after `Failed` it is `LoadFailed` with the engine's reason; in
    /// both cases the manager stays as it was.
    pub fn load_finished(&mut self, outcome: LoadOutcome, now: u128) -> (out: Result<
        (),
        ModelError,
    >)
        ensures
            final(self)@ == old(self)@.load_finished(outcome@, now).0,
            match out {
                Ok(_) => old(self)@.load_finished(outcome@, now).1 is Ok,
                Err(e) => old(self)@.load_finished(outcome@, now).1 == Err::<(), ModelErrorView>(
                    e@,
                ),
            },
    {
        match outcome {
            LoadOutcome::Loaded => {
                self.state = ModelState::Loaded { last_used: now };
                Ok(())
            },
            LoadOutcome::FileMissing => Err(
                ModelError::ModelFileNotFound(self.config.model_path.clone()),
            ),
            LoadOutcome::Failed(reason) => Err(ModelError::LoadFailed(reason)),
        }
    }

    /// Releases the model where it has been idle for longer than the
    /// configured timeout, and says whether it did.
    pub fn unload_if_timeout(&mut self, now: u128) -> (out: bool)
        ensures
            (final(self)@, out) == old(self)@.unload_if_timeout(now),
    {
        match self.state {
            ModelState::Loaded { last_used } => {
                let timeout: u128 = self.config.model_timeout_seconds as u128 * NANOS_PER_SECOND;
                if now >= last_used && now - last_used > timeout {
                    self.state = ModelState::Unloaded;
                    true
                } else {
                    false
                }
            },
            ModelState::Unloaded => false,
        }
    }

    /// Turns what the engine said into what the client gets.
    ///
    /// Without a model in memory the result is `NotLoaded`, whatever the
    /// outcome. Otherwise text is trimmed, and the sentinel stands in for
    /// empty text; an engine error becomes `TranscriptionFailed`. Both stamp
    /// the model as used at `now`. A worker that did not finish becomes
    /// `TaskFailed` and leaves the stamp alone.
    pub fn transcribe_audio(&mut self, outcome: TranscriptOutcome, now: u128) -> (out: Result<
        String,
        ModelError,
    >)
        ensures
            final(self)@ == old(self)@.transcribe_audio(outcome@, now).0,
            match out {
                Ok(text) => old(self)@.transcribe_audio(outcome@, now).1 == Ok::<
                    Seq<char>,
                    ModelErrorView,
                >(text@) && text@.len() > 0,
                Err(e) => old(self)@.transcribe_audio(outcome@, now).1 == Err::<
                    Seq<char>,
                    ModelErrorView,
                >(e@),
            },
    {
        if !self.is_loaded() {
            return Err(ModelError::NotLoaded);
        }
        match outcome {
            TranscriptOutcome::Text(raw) => {
                self.state = ModelState::Loaded { last_used: now };
                Ok(normalize_transcript(raw.as_str()))
            },
            TranscriptOutcome::EngineError(reason) => {
                self.state = ModelState::Loaded { last_used: now };
                Err(ModelError::TranscriptionFailed(reason))
            },
            TranscriptOutcome::TaskFailed(reason) => Err(ModelError::TaskFailed(reason)),
        }
    }
}

/// However many callers ask for the model one after the other, it is loaded
/// once at most: once where it was not in memory and somebody asked, never
/// where it was. Afterwards every caller finds it loaded.
pub proof fn lemma_load_once(manager: WhisperManagerView, times: Seq<u128>)
    ensures
        manager.load_passes(times).0.config == manager.config,
        times.len() > 0 ==> manager.load_passes(times).0.is_loaded(),
        manager.load_passes(times).1 == (if times.len() > 0 && !manager.is_loaded() {
            1nat
        } else {
            0nat
        }),
    decreases times.len(),
{
    if times.len() > 0 {
        lemma_load_once(manager, times.drop_last());
    }
}

/// A model that was just used is not released, and one left alone for longer
/// than the timeout is.
pub proof fn lemma_unload_when_idle(manager: WhisperManagerView, used: u128, now: u128)
    ensures
        !manager.touched(used).unload_if_timeout(used).1,
        now <= used + manager.timeout() ==> manager.touched(used).unload_if_timeout(now)
            == (manager.touched(used), false),
        now > used + manager.timeout() ==> manager.touched(used).unload_if_timeout(now).1
            && !manager.touched(used).unload_if_timeout(now).0.is_loaded(),
{
}

} // verus!

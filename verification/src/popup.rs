//! What the popup window knows and decides: its settings with their
//! defaults, and how each message from the daemon's side changes what it
//! shows.

use crate::ipc::{DaemonMessage, DaemonMessageView};
use crate::text::{is_blank, trim};
use vstd::prelude::*;
use vstd::string::*;

verus! {

/// Bit pattern of `0.8`, the fuzzy-match threshold used where none is set.
pub const DEFAULT_FUZZY_MATCH_THRESHOLD: u32 = 0x3F4C_CCCD;

/// Seconds of idleness allowed to the model where none are set.
pub const DEFAULT_MODEL_TIMEOUT_SECONDS: u32 = 300;

/// Model settings of the popup; what is not set falls back to a default.
#[derive(Debug, PartialEq, Eq)]
pub struct WhisperConfig {
    pub model: Option<String>,
    pub model_timeout_seconds: Option<u32>,
    pub language: Option<String>,
    /// Bit pattern of the fuzzy-match threshold.
    pub fuzzy_match_threshold: Option<u32>,
}

/// Window settings of the popup; what is not set falls back to a default.
#[derive(Clone, Copy, Debug, PartialEq, Eq, Structural)]
pub struct UIConfig {
    pub auto_copy: Option<bool>,
    pub auto_close_after_copy: Option<bool>,
}

/// Settings of the popup.
#[derive(Debug, PartialEq, Eq)]
pub struct Config {
    pub whisper: Option<WhisperConfig>,
    pub ui: Option<UIConfig>,
}

/// The model that stands in where none is set.
pub open spec fn default_model() -> Seq<char> {
    "distil-large-v3"@
}

/// The language that stands in where none is set.
pub open spec fn default_language() -> Seq<char> {
    "en"@
}

impl Config {
    pub open spec fn spec_auto_copy(&self) -> bool {
        match self.ui {
            Some(ui) => match ui.auto_copy {
                Some(value) => value,
                None => true,
            },
            None => true,
        }
    }

    pub open spec fn spec_auto_close_after_copy(&self) -> bool {
        match self.ui {
            Some(ui) => match ui.auto_close_after_copy {
                Some(value) => value,
                None => true,
            },
            None => true,
        }
    }

    pub open spec fn spec_model(&self) -> Seq<char> {
        match self.whisper {
            Some(whisper) => match whisper.model {
                Some(model) => model@,
                None => default_model(),
            },
            None => default_model(),
        }
    }

    pub open spec fn spec_model_timeout_seconds(&self) -> u32 {
        match self.whisper {
            Some(whisper) => match whisper.model_timeout_seconds {
                Some(seconds) => seconds,
                None => DEFAULT_MODEL_TIMEOUT_SECONDS,
            },
            None => DEFAULT_MODEL_TIMEOUT_SECONDS,
        }
    }

    pub open spec fn spec_language(&self) -> Seq<char> {
        match self.whisper {
            Some(whisper) => match whisper.language {
                Some(language) => language@,
                None => default_language(),
            },
            None => default_language(),
        }
    }

    pub open spec fn spec_fuzzy_match_threshold(&self) -> u32 {
        match self.whisper {
            Some(whisper) => match whisper.fuzzy_match_threshold {
                Some(bits) => bits,
                None => DEFAULT_FUZZY_MATCH_THRESHOLD,
            },
            None => DEFAULT_FUZZY_MATCH_THRESHOLD,
        }
    }

    /// Settings with nothing set.
    pub fn empty() -> (out: Self)
        ensures
            out.whisper is None,
            out.ui is None,
    {
        Config { whisper: None, ui: None }
    }

    /// Whether a transcript is copied to the clipboard unasked; yes unless
    /// set otherwise.
    pub fn auto_copy(&self) -> (out: bool)
        ensures
            out == self.spec_auto_copy(),
    {
        match &self.ui {
            Some(ui) => match ui.auto_copy {
                Some(value) => value,
                None => true,
            },
            None => true,
        }
    }

    /// Whether the window closes once the transcript is copied; yes unless
    /// set otherwise.
    pub fn auto_close_after_copy(&self) -> (out: bool)
        ensures
            out == self.spec_auto_close_after_copy(),
    {
        match &self.ui {
            Some(ui) => match ui.auto_close_after_copy {
                Some(value) => value,
                None => true,
            },
            None => true,
        }
    }

    /// The model's name; `distil-large-v3` unless set otherwise.
    pub fn model(&self) -> (out: String)
        ensures
            out@ == self.spec_model(),
    {
        match &self.whisper {
            Some(WhisperConfig { model: Some(model), .. }) => model.clone(),
            _ => String::from_str("distil-large-v3"),
        }
    }

    /// Seconds of idleness allowed to the model; 300 unless set otherwise.
    pub fn model_timeout_seconds(&self) -> (out: u32)
        ensures
            out == self.spec_model_timeout_seconds(),
    {
        match &self.whisper {
            Some(WhisperConfig { model_timeout_seconds: Some(seconds), .. }) => *seconds,
            _ => DEFAULT_MODEL_TIMEOUT_SECONDS,
        }
    }

    /// The language; `en` unless set otherwise.
    pub fn language(&self) -> (out: String)
        ensures
            out@ == self.spec_language(),
    {
        match &self.whisper {
            Some(WhisperConfig { language: Some(language), .. }) => language.clone(),
            _ => String::from_str("en"),
        }
    }

    /// Bit pattern of the fuzzy-match threshold; that of `0.8` unless set
    /// otherwise.
    pub fn fuzzy_match_threshold(&self) -> (out: u32)
        ensures
            out == self.spec_fuzzy_match_threshold(),
    {
        match &self.whisper {
            Some(WhisperConfig { fuzzy_match_threshold: Some(bits), .. }) => *bits,
            _ => DEFAULT_FUZZY_MATCH_THRESHOLD,
        }
    }

    /// Sets both window settings and leaves the model settings alone.
    pub fn set_ui(&mut self, auto_copy: bool, auto_close_after_copy: bool)
        ensures
            final(self).ui == Some(
                UIConfig {
                    auto_copy: Some(auto_copy),
                    auto_close_after_copy: Some(auto_close_after_copy),
                },
            ),
            final(self).whisper == old(self).whisper,
            final(self).spec_auto_copy() == auto_copy,
            final(self).spec_auto_close_after_copy() == auto_close_after_copy,
    {
        self.ui = Some(
            UIConfig {
                auto_copy: Some(auto_copy),
                auto_close_after_copy: Some(auto_close_after_copy),
            },
        );
    }

    /// Sets all four model settings and leaves the window settings alone.
    pub fn set_whisper(
        &mut self,
        model: String,
        model_timeout_seconds: u32,
        language: String,
        fuzzy_match_threshold: u32,
    )
        ensures
            final(self).ui == old(self).ui,
            final(self).spec_model() == model@,
            final(self).spec_model_timeout_seconds() == model_timeout_seconds,
            final(self).spec_language() == language@,
            final(self).spec_fuzzy_match_threshold() == fuzzy_match_threshold,
    {
        self.whisper = Some(
            WhisperConfig {
                model: Some(model),
                model_timeout_seconds: Some(model_timeout_seconds),
                language: Some(language),
                fuzzy_match_threshold: Some(fuzzy_match_threshold),
            },
        );
    }
}

/// What the thread that talks to the daemon tells the window.
#[derive(Debug, PartialEq, Eq)]
pub enum UiMessage {
    DaemonConnected(bool),
    RecordingStarted(u128),
    RecordingStopped,
    /// Text of one segment, and whether the segment is final.
    TranscriptionUpdate(String, bool),
    TranscriptionComplete(String),
    ModelLoading,
    ModelLoaded,
    ModelUnloaded,
    SessionCleared,
    Error(String),
}

/// `UiMessage` as a mathematical value.
pub enum UiMessageView {
    DaemonConnected(bool),
    RecordingStarted(u128),
    RecordingStopped,
    TranscriptionUpdate(Seq<char>, bool),
    TranscriptionComplete(Seq<char>),
    ModelLoading,
    ModelLoaded,
    ModelUnloaded,
    SessionCleared,
    Error(Seq<char>),
}

impl View for UiMessage {
    type V = UiMessageView;

    open spec fn view(&self) -> UiMessageView {
        match *self {
            UiMessage::DaemonConnected(connected) => UiMessageView::DaemonConnected(connected),
            UiMessage::RecordingStarted(id) => UiMessageView::RecordingStarted(id),
            UiMessage::RecordingStopped => UiMessageView::RecordingStopped,
            UiMessage::TranscriptionUpdate(text, is_final) => UiMessageView::TranscriptionUpdate(
                text@,
                is_final,
            ),
            UiMessage::TranscriptionComplete(text) => UiMessageView::TranscriptionComplete(text@),
            UiMessage::ModelLoading => UiMessageView::ModelLoading,
            UiMessage::ModelLoaded => UiMessageView::ModelLoaded,
            UiMessage::ModelUnloaded => UiMessageView::ModelUnloaded,
            UiMessage::SessionCleared => UiMessageView::SessionCleared,
            UiMessage::Error(text) => UiMessageView::Error(text@),
        }
    }
}

/// What the window shows.
#[derive(Debug, PartialEq, Eq)]
pub struct DictationApp {
    /// The text on display.
    pub text: String,
    /// The transcripts completed so far, joined by single spaces.
    pub complete_text: String,
    pub daemon_connected: bool,
    pub is_recording: bool,
    pub session_id: Option<u128>,
    pub model_loading: bool,
    pub show_settings: bool,
}

/// `DictationApp` as a mathematical value.
pub struct DictationAppView {
    pub text: Seq<char>,
    pub complete_text: Seq<char>,
    pub daemon_connected: bool,
    pub is_recording: bool,
    pub session_id: Option<u128>,
    pub model_loading: bool,
    pub show_settings: bool,
}

impl View for DictationApp {
    type V = DictationAppView;

    open spec fn view(&self) -> DictationAppView {
        DictationAppView {
            text: self.text@,
            complete_text: self.complete_text@,
            daemon_connected: self.daemon_connected,
            is_recording: self.is_recording,
            session_id: self.session_id,
            model_loading: self.model_loading,
            show_settings: self.show_settings,
        }
    }
}

/// `text` with `piece` added: behind a single space where `text` is not
/// empty and `piece` is not blank, and directly otherwise.
pub open spec fn joined(text: Seq<char>, piece: Seq<char>) -> Seq<char> {
    if text.len() > 0 && !is_blank(piece) {
        text + seq![' '] + piece
    } else {
        text + piece
    }
}

impl DictationAppView {
    /// The window as it opens, showing `text`.
    pub open spec fn initial(text: Seq<char>) -> DictationAppView {
        DictationAppView {
            text,
            complete_text: Seq::empty(),
            daemon_connected: false,
            is_recording: false,
            session_id: None,
            model_loading: false,
            show_settings: false,
        }
    }

    /// Whether there is anything to copy.
    pub open spec fn has_text(self) -> bool {
        !is_blank(self.text)
    }

    /// The window after `message`, and whether the text on display is to be
    /// copied to the clipboard now.
    pub open spec fn apply(self, message: UiMessageView, auto_copy: bool) -> (
        DictationAppView,
        bool,
    ) {
        match message {
            UiMessageView::DaemonConnected(connected) => (
                DictationAppView { daemon_connected: connected, ..self },
                false,
            ),
            UiMessageView::RecordingStarted(id) => (
                DictationAppView {
                    session_id: Some(id),
                    is_recording: true,
                    text: Seq::empty(),
                    complete_text: Seq::empty(),
                    ..self
                },
                false,
            ),
            UiMessageView::RecordingStopped => (
                DictationAppView { is_recording: false, ..self },
                auto_copy && self.has_text(),
            ),
            UiMessageView::TranscriptionUpdate(piece, _) => (
                DictationAppView { text: joined(self.text, piece), ..self },
                false,
            ),
            UiMessageView::TranscriptionComplete(piece) => (
                DictationAppView {
                    complete_text: joined(self.complete_text, piece),
                    text: joined(self.complete_text, piece),
                    is_recording: false,
                    ..self
                },
                auto_copy && !is_blank(joined(self.complete_text, piece)),
            ),
            UiMessageView::ModelLoading => (
                DictationAppView { model_loading: true, ..self },
                false,
            ),
            UiMessageView::ModelLoaded => (
                DictationAppView { model_loading: false, ..self },
                false,
            ),
            UiMessageView::ModelUnloaded => (
                DictationAppView { model_loading: false, ..self },
                false,
            ),
            UiMessageView::SessionCleared => (
                DictationAppView { text: Seq::empty(), complete_text: Seq::empty(), ..self },
                false,
            ),
            UiMessageView::Error(_) => (self, false),
        }
    }

    /// The window after all of `messages`, and the texts that were asked to
    /// be copied on the way, in their order.
    pub open spec fn apply_all(self, messages: Seq<UiMessageView>, auto_copy: bool) -> (
        DictationAppView,
        Seq<Seq<char>>,
    )
        decreases messages.len(),
    {
        if messages.len() == 0 {
            (self, Seq::empty())
        } else {
            let (before, copies) = self.apply_all(messages.drop_last(), auto_copy);
            let (after, copy) = before.apply(messages.last(), auto_copy);
            (
                after,
                if copy {
                    copies.push(after.text)
                } else {
                    copies
                },
            )
        }
    }

    /// The window after the stop button, whether the daemon is to be told to
    /// stop, and whether the text on display is to be copied now.
    pub open spec fn stop_recording(self, auto_copy: bool) -> (DictationAppView, bool, bool) {
        if self.is_recording {
            (DictationAppView { is_recording: false, ..self }, true, auto_copy && self.has_text())
        } else {
            (self, false, false)
        }
    }
}

/// Messages as mathematical values, in their order.
pub open spec fn messages_view(messages: Seq<UiMessage>) -> Seq<UiMessageView> {
    messages.map_values(|m: UiMessage| m@)
}

/// Texts as sequences of characters, in their order.
pub open spec fn texts_view(texts: Seq<String>) -> Seq<Seq<char>> {
    texts.map_values(|t: String| t@)
}

/// What the stop button leads to.
#[derive(Clone, Copy, Debug, PartialEq, Eq, Structural)]
pub struct StopEffect {
    /// Tell the daemon to stop recording.
    pub send_stop: bool,
    /// Copy the text on display to the clipboard.
    pub copy: bool,
}

/// Adds `piece` to `text` as `joined` says.
fn join(text: &mut String, piece: &str)
    ensures
        final(text)@ == joined(old(text)@, piece@),
{
    if !text.as_str().is_empty() && !trim(piece).as_str().is_empty() {
        proof {
            reveal_strlit(" ");
        }
        text.append(" ");
    }
    text.append(piece);
}

impl DictationApp {
    /// The window as it opens, showing `initial_text` if there is any.
    pub fn new(initial_text: Option<String>) -> (out: Self)
        ensures
            out@ == DictationAppView::initial(
                match initial_text {
                    Some(text) => text@,
                    None => Seq::empty(),
                },
            ),
    {
        DictationApp {
            text: match initial_text {
                Some(text) => text,
                None => String::new(),
            },
            complete_text: String::new(),
            daemon_connected: false,
            is_recording: false,
            session_id: None,
            model_loading: false,
            show_settings: false,
        }
    }

    /// Whether the text on display holds more than whitespace, so that there
    /// is something to copy.
    pub fn has_text(&self) -> (out: bool)
        ensures
            out == self@.has_text(),
    {
        !trim(self.text.as_str()).as_str().is_empty()
    }

    /// Takes in one message and says whether the text on display is to be
    /// copied to the clipboard now.
    ///
    /// A started recording clears the texts. An update is added to the text
    /// on display, a completed transcript to the completed text, which then
    /// is what is on display; both are joined on by a single space unless
    /// they are blank or nothing stands before them. A stopped recording and
    /// a completed transcript end the recording and ask for the copy where
    /// `auto_copy` is set and there is text.
    pub fn process_message(&mut self, message: &UiMessage, auto_copy: bool) -> (copy: bool)
        ensures
            (final(self)@, copy) == old(self)@.apply(message@, auto_copy),
    {
        match message {
            UiMessage::DaemonConnected(connected) => {
                self.daemon_connected = *connected;
                false
            },
            UiMessage::RecordingStarted(id) => {
                self.session_id = Some(*id);
                self.is_recording = true;
                self.text = String::new();
                self.complete_text = String::new();
                false
            },
            UiMessage::RecordingStopped => {
                self.is_recording = false;
                auto_copy && self.has_text()
            },
            UiMessage::TranscriptionUpdate(piece, _) => {
                join(&mut self.text, piece.as_str());
                false
            },
            UiMessage::TranscriptionComplete(piece) => {
                join(&mut self.complete_text, piece.as_str());
                self.text = self.complete_text.clone();
                self.is_recording = false;
                auto_copy && self.has_text()
            },
            UiMessage::ModelLoading => {
                self.model_loading = true;
                false
            },
            UiMessage::ModelLoaded => {
                self.model_loading = false;
                false
            },
            UiMessage::ModelUnloaded => {
                self.model_loading = false;
                false
            },
            UiMessage::SessionCleared => {
                self.complete_text = String::new();
                self.text = String::new();
                false
            },
            UiMessage::Error(_) => false,
        }
    }

    /// Takes in the messages in their order and hands out the texts to be
    /// copied to the clipboard, each as it stood on display when its message
    /// asked for the copy.
    pub fn process_messages(&mut self, messages: &Vec<UiMessage>, auto_copy: bool) -> (copies: Vec<
        String,
    >)
        ensures
            (final(self)@, texts_view(copies@)) == old(self)@.apply_all(
                messages_view(messages@),
                auto_copy,
            ),
    {
        let mut copies: Vec<String> = Vec::new();
        let mut i: usize = 0;
        assert(texts_view(copies@) =~= Seq::empty());
        while i < messages.len()
            invariant
                i <= messages@.len(),
                (self@, texts_view(copies@)) == old(self)@.apply_all(
                    messages_view(messages@).subrange(0, i as int),
                    auto_copy,
                ),
            decreases messages@.len() - i,
        {
            let ghost taken = messages_view(messages@).subrange(0, i as int + 1);
            assert(taken.drop_last() =~= messages_view(messages@).subrange(0, i as int));
            assert(taken.last() == messages@[i as int]@);
            let ghost before = texts_view(copies@);
            if self.process_message(&messages[i], auto_copy) {
                copies.push(self.text.clone());
                assert(texts_view(copies@) =~= before.push(self@.text));
            }
            i += 1;
        }
        assert(messages_view(messages@).subrange(0, i as int) =~= messages_view(messages@));
        copies
    }

    /// Reacts to the stop button: a recording that runs is ended, the daemon
    /// is to be told, and the text is to be copied where `auto_copy` is set
    /// and there is text. Without a recording nothing happens.
    pub fn stop_recording(&mut self, auto_copy: bool) -> (out: StopEffect)
        ensures
            (final(self)@, out.send_stop, out.copy) == old(self)@.stop_recording(auto_copy),
    {
        if self.is_recording {
            self.is_recording = false;
            StopEffect { send_stop: true, copy: auto_copy && self.has_text() }
        } else {
            StopEffect { send_stop: false, copy: false }
        }
    }
}

/// How the daemon answered the popup's request to start recording.
#[derive(Debug, PartialEq, Eq)]
pub enum StartReply {
    /// The recording runs under this session.
    Started(u128),
    /// The daemon reported an error.
    Refused(String),
    /// The daemon answered with a message that is no answer to a start.
    Unexpected(DaemonMessage),
}

/// `StartReply` as a mathematical value.
pub enum StartReplyView {
    Started(u128),
    Refused(Seq<char>),
    Unexpected(DaemonMessageView),
}

impl View for StartReply {
    type V = StartReplyView;

    open spec fn view(&self) -> StartReplyView {
        match *self {
            StartReply::Started(id) => StartReplyView::Started(id),
            StartReply::Refused(reason) => StartReplyView::Refused(reason@),
            StartReply::Unexpected(message) => StartReplyView::Unexpected(message@),
        }
    }
}

/// What the daemon's answer to a start means.
pub open spec fn start_reply_of(message: DaemonMessageView) -> StartReplyView {
    match message {
        DaemonMessageView::RecordingStarted(id) => StartReplyView::Started(id),
        DaemonMessageView::Error(reason) => StartReplyView::Refused(reason),
        other => StartReplyView::Unexpected(other),
    }
}

/// Reads the daemon's answer to a start.
pub fn start_reply(message: DaemonMessage) -> (out: StartReply)
    ensures
        out@ == start_reply_of(message@),
{
    match message {
        DaemonMessage::RecordingStarted(id) => StartReply::Started(id),
        DaemonMessage::Error(reason) => StartReply::Refused(reason),
        other => StartReply::Unexpected(other),
    }
}

/// What becomes of a message of the daemon on its way to the window.
#[derive(Debug, PartialEq, Eq)]
pub struct Forwarded {
    /// What the window is told, if anything.
    pub message: Option<UiMessage>,
    /// Whether this was the last message to wait for.
    pub done: bool,
}

/// What the window is told of `message` while it follows the session
/// `session_id`: updates and transcripts of that session, a stop, a cleared
/// session and errors. Nothing else is passed on.
pub open spec fn forwarded_message(session_id: u128, message: DaemonMessageView) -> Option<
    UiMessageView,
> {
    match message {
        DaemonMessageView::TranscriptionUpdate { session_id: id, partial_text, is_final } => {
            if id == session_id {
                Some(UiMessageView::TranscriptionUpdate(partial_text, is_final))
            } else {
                None
            }
        },
        DaemonMessageView::TranscriptionComplete(session) => {
            if session.id == session_id {
                Some(UiMessageView::TranscriptionComplete(session.text))
            } else {
                None
            }
        },
        DaemonMessageView::RecordingStopped => Some(UiMessageView::RecordingStopped),
        DaemonMessageView::SessionCleared => Some(UiMessageView::SessionCleared),
        DaemonMessageView::Error(reason) => Some(UiMessageView::Error(reason)),
        _ => None,
    }
}

/// Passes a message of the daemon on to the window that follows the session
/// `session_id`. Only `RecordingStopped` ends the waiting.
pub fn forward(session_id: u128, message: DaemonMessage) -> (out: Forwarded)
    ensures
        out.done == (message@ is RecordingStopped),
        match out.message {
            Some(m) => forwarded_message(session_id, message@) == Some(m@),
            None => forwarded_message(session_id, message@) is None,
        },
{
    match message {
        DaemonMessage::TranscriptionUpdate { session_id: id, partial_text, is_final } => {
            if id == session_id {
                Forwarded {
                    message: Some(UiMessage::TranscriptionUpdate(partial_text, is_final)),
                    done: false,
                }
            } else {
                Forwarded { message: None, done: false }
            }
        },
        DaemonMessage::TranscriptionComplete(session) => {
            if session.id == session_id {
                Forwarded {
                    message: Some(UiMessage::TranscriptionComplete(session.text)),
                    done: false,
                }
            } else {
                Forwarded { message: None, done: false }
            }
        },
        DaemonMessage::RecordingStopped => Forwarded {
            message: Some(UiMessage::RecordingStopped),
            done: true,
        },
        DaemonMessage::SessionCleared => Forwarded {
            message: Some(UiMessage::SessionCleared),
            done: false,
        },
        DaemonMessage::Error(reason) => Forwarded {
            message: Some(UiMessage::Error(reason)),
            done: false,
        },
        _ => Forwarded { message: None, done: false },
    }
}

} // verus!

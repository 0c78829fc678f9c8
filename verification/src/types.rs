//! The values that sessions, audio chunks and model descriptions are made of.
//!
//! Three conventions hold throughout the crate. A session identifier is the
//! 128-bit value of its UUID. A point in time is a number of nanoseconds since
//! the Unix epoch, a span of time a number of nanoseconds. A single-precision
//! float that is only stored or passed on (an audio sample, a confidence, a
//! threshold) is carried as its IEEE-754 bit pattern.

use vstd::prelude::*;

verus! {

/// Where a session stands between the start of its recording and its
/// transcript.
#[derive(Debug, PartialEq, Eq)]
pub enum SessionStatus {
    Recording,
    Processing,
    Completed,
    Failed(String),
}

/// `SessionStatus` as a mathematical value.
pub enum SessionStatusView {
    Recording,
    Processing,
    Completed,
    Failed(Seq<char>),
}

impl View for SessionStatus {
    type V = SessionStatusView;

    open spec fn view(&self) -> SessionStatusView {
        match *self {
            SessionStatus::Recording => SessionStatusView::Recording,
            SessionStatus::Processing => SessionStatusView::Processing,
            SessionStatus::Completed => SessionStatusView::Completed,
            SessionStatus::Failed(reason) => SessionStatusView::Failed(reason@),
        }
    }
}

impl Clone for SessionStatus {
    fn clone(&self) -> (out: Self)
        ensures
            out@ == self@,
    {
        match self {
            SessionStatus::Recording => SessionStatus::Recording,
            SessionStatus::Processing => SessionStatus::Processing,
            SessionStatus::Completed => SessionStatus::Completed,
            SessionStatus::Failed(reason) => SessionStatus::Failed(reason.clone()),
        }
    }
}

/// One recording-to-transcript unit of work.
#[derive(Debug, PartialEq, Eq)]
pub struct TranscriptionSession {
    pub id: u128,
    pub status: SessionStatus,
    pub text: String,
    /// Bit pattern of the confidence score, where the engine gave one.
    pub confidence: Option<u32>,
    pub created_at: u128,
}

/// `TranscriptionSession` as a mathematical value.
pub struct TranscriptionSessionView {
    pub id: u128,
    pub status: SessionStatusView,
    pub text: Seq<char>,
    pub confidence: Option<u32>,
    pub created_at: u128,
}

impl View for TranscriptionSession {
    type V = TranscriptionSessionView;

    open spec fn view(&self) -> TranscriptionSessionView {
        TranscriptionSessionView {
            id: self.id,
            status: self.status@,
            text: self.text@,
            confidence: self.confidence,
            created_at: self.created_at,
        }
    }
}

impl TranscriptionSessionView {
    /// The session as it is at the moment its recording starts.
    pub open spec fn fresh(id: u128, now: u128) -> TranscriptionSessionView {
        TranscriptionSessionView {
            id,
            status: SessionStatusView::Recording,
            text: Seq::empty(),
            confidence: None,
            created_at: now,
        }
    }

    /// The session once its audio has been transcribed to `text`.
    pub open spec fn completed(self, text: Seq<char>) -> TranscriptionSessionView {
        TranscriptionSessionView { status: SessionStatusView::Completed, text, ..self }
    }

    /// The session once its transcription has failed for `reason`.
    pub open spec fn failed(self, reason: Seq<char>) -> TranscriptionSessionView {
        TranscriptionSessionView { status: SessionStatusView::Failed(reason), ..self }
    }
}

impl Clone for TranscriptionSession {
    fn clone(&self) -> (out: Self)
        ensures
            out@ == self@,
    {
        TranscriptionSession {
            id: self.id,
            status: self.status.clone(),
            text: self.text.clone(),
            confidence: self.confidence,
            created_at: self.created_at,
        }
    }
}

impl TranscriptionSession {
    /// A session that has just begun recording: no text, no confidence.
    pub fn new(id: u128, now: u128) -> (out: Self)
        ensures
            out@ == TranscriptionSessionView::fresh(id, now),
    {
        TranscriptionSession {
            id,
            status: SessionStatus::Recording,
            text: String::new(),
            confidence: None,
            created_at: now,
        }
    }
}

/// A timestamped slice of captured audio that belongs to one session.
#[derive(Debug, PartialEq, Eq)]
pub struct AudioChunk {
    pub session_id: u128,
    /// Bit patterns of the samples, in capture order.
    pub data: Vec<u32>,
    pub sample_rate: u32,
    pub channels: u16,
    pub timestamp: u128,
}

/// `AudioChunk` as a mathematical value.
pub struct AudioChunkView {
    pub session_id: u128,
    pub data: Seq<u32>,
    pub sample_rate: u32,
    pub channels: u16,
    pub timestamp: u128,
}

impl View for AudioChunk {
    type V = AudioChunkView;

    open spec fn view(&self) -> AudioChunkView {
        AudioChunkView {
            session_id: self.session_id,
            data: self.data@,
            sample_rate: self.sample_rate,
            channels: self.channels,
            timestamp: self.timestamp,
        }
    }
}

impl Clone for AudioChunk {
    fn clone(&self) -> (out: Self)
        ensures
            out@ == self@,
    {
        AudioChunk {
            session_id: self.session_id,
            data: self.data.clone(),
            sample_rate: self.sample_rate,
            channels: self.channels,
            timestamp: self.timestamp,
        }
    }
}

/// What is known of a speech model: its name, where its file lies, whether it
/// is in memory and when it last served.
#[derive(Debug, PartialEq, Eq)]
pub struct ModelInfo {
    pub name: String,
    pub path: String,
    pub loaded: bool,
    pub last_used: Option<u128>,
}

/// `ModelInfo` as a mathematical value.
pub struct ModelInfoView {
    pub name: Seq<char>,
    pub path: Seq<char>,
    pub loaded: bool,
    pub last_used: Option<u128>,
}

impl View for ModelInfo {
    type V = ModelInfoView;

    open spec fn view(&self) -> ModelInfoView {
        ModelInfoView {
            name: self.name@,
            path: self.path@,
            loaded: self.loaded,
            last_used: self.last_used,
        }
    }
}

impl Clone for ModelInfo {
    fn clone(&self) -> (out: Self)
        ensures
            out@ == self@,
    {
        ModelInfo {
            name: self.name.clone(),
            path: self.path.clone(),
            loaded: self.loaded,
            last_used: self.last_used,
        }
    }
}

} // verus!

//! The messages that clients and the daemon exchange.

use crate::types::{
    AudioChunk,
    AudioChunkView,
    TranscriptionSession,
    TranscriptionSessionView,
};
use vstd::prelude::*;

verus! {

/// What a client asks of the daemon.
#[derive(Debug, PartialEq, Eq)]
pub enum ClientMessage {
    StartRecording,
    StopRecording,
    StreamAudio(AudioChunk),
    GetStatus,
    /// Discard the sessions that are open, with their audio.
    ClearSession,
    /// Set the voice-detection sensitivity, given as a bit pattern.
    SetSensitivity(u32),
    Shutdown,
}

/// `ClientMessage` as a mathematical value.
pub enum ClientMessageView {
    StartRecording,
    StopRecording,
    StreamAudio(AudioChunkView),
    GetStatus,
    ClearSession,
    SetSensitivity(u32),
    Shutdown,
}

impl View for ClientMessage {
    type V = ClientMessageView;

    open spec fn view(&self) -> ClientMessageView {
        match *self {
            ClientMessage::StartRecording => ClientMessageView::StartRecording,
            ClientMessage::StopRecording => ClientMessageView::StopRecording,
            ClientMessage::StreamAudio(chunk) => ClientMessageView::StreamAudio(chunk@),
            ClientMessage::GetStatus => ClientMessageView::GetStatus,
            ClientMessage::ClearSession => ClientMessageView::ClearSession,
            ClientMessage::SetSensitivity(bits) => ClientMessageView::SetSensitivity(bits),
            ClientMessage::Shutdown => ClientMessageView::Shutdown,
        }
    }
}

impl Clone for ClientMessage {
    fn clone(&self) -> (out: Self)
        ensures
            out@ == self@,
    {
        match self {
            ClientMessage::StartRecording => ClientMessage::StartRecording,
            ClientMessage::StopRecording => ClientMessage::StopRecording,
            ClientMessage::StreamAudio(chunk) => ClientMessage::StreamAudio(chunk.clone()),
            ClientMessage::GetStatus => ClientMessage::GetStatus,
            ClientMessage::ClearSession => ClientMessage::ClearSession,
            ClientMessage::SetSensitivity(bits) => ClientMessage::SetSensitivity(*bits),
            ClientMessage::Shutdown => ClientMessage::Shutdown,
        }
    }
}

/// A snapshot of the daemon, computed when asked for.
#[derive(Debug, PartialEq, Eq)]
pub struct DaemonStatus {
    pub model_loaded: bool,
    /// Identifiers of the open sessions, oldest first.
    pub active_sessions: Vec<u128>,
    /// Nanoseconds since the daemon started.
    pub uptime: u128,
}

/// `DaemonStatus` as a mathematical value.
pub struct DaemonStatusView {
    pub model_loaded: bool,
    pub active_sessions: Seq<u128>,
    pub uptime: u128,
}

impl View for DaemonStatus {
    type V = DaemonStatusView;

    open spec fn view(&self) -> DaemonStatusView {
        DaemonStatusView {
            model_loaded: self.model_loaded,
            active_sessions: self.active_sessions@,
            uptime: self.uptime,
        }
    }
}

impl Clone for DaemonStatus {
    fn clone(&self) -> (out: Self)
        ensures
            out@ == self@,
    {
        DaemonStatus {
            model_loaded: self.model_loaded,
            active_sessions: self.active_sessions.clone(),
            uptime: self.uptime,
        }
    }
}

/// What the daemon tells a client.
#[derive(Debug, PartialEq, Eq)]
pub enum DaemonMessage {
    RecordingStarted(u128),
    RecordingStopped,
    TranscriptionUpdate { session_id: u128, partial_text: String, is_final: bool },
    TranscriptionComplete(TranscriptionSession),
    /// Current audio level, given as a bit pattern.
    AudioLevel(u32),
    VoiceActivityDetected,
    VoiceActivityEnded,
    ProcessingStarted,
    ProcessingComplete,
    Error(String),
    Status(DaemonStatus),
    SessionCleared,
}

/// `DaemonMessage` as a mathematical value.
pub enum DaemonMessageView {
    RecordingStarted(u128),
    RecordingStopped,
    TranscriptionUpdate { session_id: u128, partial_text: Seq<char>, is_final: bool },
    TranscriptionComplete(TranscriptionSessionView),
    AudioLevel(u32),
    VoiceActivityDetected,
    VoiceActivityEnded,
    ProcessingStarted,
    ProcessingComplete,
    Error(Seq<char>),
    Status(DaemonStatusView),
    SessionCleared,
}

impl View for DaemonMessage {
    type V = DaemonMessageView;

    open spec fn view(&self) -> DaemonMessageView {
        match *self {
            DaemonMessage::RecordingStarted(id) => DaemonMessageView::RecordingStarted(id),
            DaemonMessage::RecordingStopped => DaemonMessageView::RecordingStopped,
            DaemonMessage::TranscriptionUpdate { session_id, partial_text, is_final } => {
                DaemonMessageView::TranscriptionUpdate {
                    session_id,
                    partial_text: partial_text@,
                    is_final,
                }
            },
            DaemonMessage::TranscriptionComplete(session) => {
                DaemonMessageView::TranscriptionComplete(session@)
            },
            DaemonMessage::AudioLevel(bits) => DaemonMessageView::AudioLevel(bits),
            DaemonMessage::VoiceActivityDetected => DaemonMessageView::VoiceActivityDetected,
            DaemonMessage::VoiceActivityEnded => DaemonMessageView::VoiceActivityEnded,
            DaemonMessage::ProcessingStarted => DaemonMessageView::ProcessingStarted,
            DaemonMessage::ProcessingComplete => DaemonMessageView::ProcessingComplete,
            DaemonMessage::Error(text) => DaemonMessageView::Error(text@),
            DaemonMessage::Status(status) => DaemonMessageView::Status(status@),
            DaemonMessage::SessionCleared => DaemonMessageView::SessionCleared,
        }
    }
}

impl Clone for DaemonMessage {
    fn clone(&self) -> (out: Self)
        ensures
            out@ == self@,
    {
        match self {
            DaemonMessage::RecordingStarted(id) => DaemonMessage::RecordingStarted(*id),
            DaemonMessage::RecordingStopped => DaemonMessage::RecordingStopped,
            DaemonMessage::TranscriptionUpdate { session_id, partial_text, is_final } => {
                DaemonMessage::TranscriptionUpdate {
                    session_id: *session_id,
                    partial_text: partial_text.clone(),
                    is_final: *is_final,
                }
            },
            DaemonMessage::TranscriptionComplete(session) => {
                DaemonMessage::TranscriptionComplete(session.clone())
            },
            DaemonMessage::AudioLevel(bits) => DaemonMessage::AudioLevel(*bits),
            DaemonMessage::VoiceActivityDetected => DaemonMessage::VoiceActivityDetected,
            DaemonMessage::VoiceActivityEnded => DaemonMessage::VoiceActivityEnded,
            DaemonMessage::ProcessingStarted => DaemonMessage::ProcessingStarted,
            DaemonMessage::ProcessingComplete => DaemonMessage::ProcessingComplete,
            DaemonMessage::Error(text) => DaemonMessage::Error(text.clone()),
            DaemonMessage::Status(status) => DaemonMessage::Status(status.clone()),
            DaemonMessage::SessionCleared => DaemonMessage::SessionCleared,
        }
    }
}

} // verus!

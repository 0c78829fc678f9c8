//! What the command-line client decides: which request its flags stand for,
//! and what each message of the daemon means for a client that listens.

use crate::ipc::{ClientMessage, ClientMessageView, DaemonMessage, DaemonMessageView};
use vstd::prelude::*;

verus! {

/// The request that the flags stand for. `start` goes before `stop`, and
/// `stop` before `status`; without a flag there is nothing to ask.
pub open spec fn request_of(start: bool, stop: bool, status: bool) -> Option<ClientMessageView> {
    if start {
        Some(ClientMessageView::StartRecording)
    } else if stop {
        Some(ClientMessageView::StopRecording)
    } else if status {
        Some(ClientMessageView::GetStatus)
    } else {
        None
    }
}

/// The request that the flags stand for, if any.
pub fn request_for(start: bool, stop: bool, status: bool) -> (out: Option<ClientMessage>)
    ensures
        match out {
            Some(message) => request_of(start, stop, status) == Some(message@),
            None => request_of(start, stop, status) is None,
        },
{
    if start {
        Some(ClientMessage::StartRecording)
    } else if stop {
        Some(ClientMessage::StopRecording)
    } else if status {
        Some(ClientMessage::GetStatus)
    } else {
        None
    }
}

/// Whether the client goes on to listen after the first reply: only a start
/// that the daemon confirmed is listened to.
pub fn listens_after(start: bool, reply: &DaemonMessage) -> (out: bool)
    ensures
        out == (start && reply@ is RecordingStarted),
{
    match reply {
        DaemonMessage::RecordingStarted(_) => start,
        _ => false,
    }
}

/// What a listening client makes of one message.
#[derive(Debug, PartialEq, Eq)]
pub enum ListenStep {
    /// Nothing to show; keep listening.
    Continue,
    /// Show the text so far; keep listening.
    Partial(String),
    /// Show the transcript; the recording is over.
    Final(String),
    /// The recording was stopped without a transcript.
    Stopped,
    /// The daemon reported an error; give up.
    Failed(String),
}

/// `ListenStep` as a mathematical value.
pub enum ListenStepView {
    Continue,
    Partial(Seq<char>),
    Final(Seq<char>),
    Stopped,
    Failed(Seq<char>),
}

impl View for ListenStep {
    type V = ListenStepView;

    open spec fn view(&self) -> ListenStepView {
        match *self {
            ListenStep::Continue => ListenStepView::Continue,
            ListenStep::Partial(text) => ListenStepView::Partial(text@),
            ListenStep::Final(text) => ListenStepView::Final(text@),
            ListenStep::Stopped => ListenStepView::Stopped,
            ListenStep::Failed(reason) => ListenStepView::Failed(reason@),
        }
    }
}

impl ListenStepView {
    /// Whether the client stops listening after this step.
    pub open spec fn ends(self) -> bool {
        self is Final || self is Stopped || self is Failed
    }
}

/// What a listening client makes of `message`: an update with text is
/// shown, one without is passed over; a finished session, a stop and an
/// error end the listening; anything else is passed over.
pub open spec fn listen_step_of(message: DaemonMessageView) -> ListenStepView {
    match message {
        DaemonMessageView::TranscriptionUpdate { partial_text, .. } => if partial_text.len() == 0 {
            ListenStepView::Continue
        } else {
            ListenStepView::Partial(partial_text)
        },
        DaemonMessageView::TranscriptionComplete(session) => ListenStepView::Final(session.text),
        DaemonMessageView::RecordingStopped => ListenStepView::Stopped,
        DaemonMessageView::Error(reason) => ListenStepView::Failed(reason),
        _ => ListenStepView::Continue,
    }
}

impl ListenStep {
    /// Whether the client stops listening after this step.
    pub fn ends(&self) -> (out: bool)
        ensures
            out == self@.ends(),
    {
        match self {
            ListenStep::Final(_) | ListenStep::Stopped | ListenStep::Failed(_) => true,
            _ => false,
        }
    }
}

/// What a listening client makes of `message`.
pub fn listen_step(message: DaemonMessage) -> (out: ListenStep)
    ensures
        out@ == listen_step_of(message@),
{
    match message {
        DaemonMessage::TranscriptionUpdate { session_id: _, partial_text, is_final: _ } => {
            if partial_text.as_str().is_empty() {
                ListenStep::Continue
            } else {
                ListenStep::Partial(partial_text)
            }
        },
        DaemonMessage::TranscriptionComplete(session) => ListenStep::Final(session.text),
        DaemonMessage::RecordingStopped => ListenStep::Stopped,
        DaemonMessage::Error(reason) => ListenStep::Failed(reason),
        _ => ListenStep::Continue,
    }
}

} // verus!

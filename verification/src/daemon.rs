//! The dispatcher: from a client's message to the daemon's reply.
//!
//! Two requests need work that the daemon cannot do itself. Starting a
//! recording may need the model loaded, and stopping one needs the audio of
//! each session transcribed. For these the daemon answers with a `Step` that
//! names the work and carries what is pending; the caller does the work and
//! hands the pending value back with the outcome, and gets the next `Step`,
//! until that is a reply. A caller that holds the daemon exclusively from the
//! message to the reply serves its clients one request at a time.

use crate::config::{Config, ConfigView};
use crate::ids::{is_random_id, random_id, RANDOM_KIND};
use crate::ipc::{
    ClientMessage,
    ClientMessageView,
    DaemonMessage,
    DaemonMessageView,
    DaemonStatus,
    DaemonStatusView,
};
use crate::model::{
    normalized,
    LoadDecision,
    LoadOutcome,
    LoadOutcomeView,
    ModelError,
    ModelErrorView,
    ModelState,
    TranscriptOutcome,
    TranscriptOutcomeView,
    WhisperManager,
    WhisperManagerView,
};
use crate::registry::{
    jobs_of,
    lemma_no_audio_no_jobs,
    jobs_view,
    sessions_view,
    AppendOutcome,
    SessionEntryView,
    SessionRegistry,
    SessionRegistryView,
    TranscriptionJob,
    TranscriptionJobView,
};
use crate::types::{AudioChunk, AudioChunkView, TranscriptionSession, TranscriptionSessionView};
use vstd::prelude::*;
use vstd::string::*;

verus! {

/// A recording whose start waits for the model to be loaded.
#[derive(Debug)]
pub struct PendingStart {
    session_id: u128,
}

/// `PendingStart` as a mathematical value.
pub struct PendingStartView {
    pub session_id: u128,
}

impl View for PendingStart {
    type V = PendingStartView;

    closed spec fn view(&self) -> PendingStartView {
        PendingStartView { session_id: self.session_id }
    }
}

impl PendingStart {
    /// The session that is being started.
    pub fn session_id(&self) -> (out: u128)
        ensures
            out == self@.session_id,
    {
        self.session_id
    }
}

/// A stop of all recordings that waits for a transcript.
#[derive(Debug)]
pub struct PendingStop {
    current: TranscriptionJob,
    waiting: Vec<TranscriptionJob>,
    finished: Vec<TranscriptionSession>,
}

/// `PendingStop` as a mathematical value: the job whose transcript is
/// awaited, the jobs behind it, and the sessions already finished.
pub struct PendingStopView {
    pub current: TranscriptionJobView,
    pub waiting: Seq<TranscriptionJobView>,
    pub finished: Seq<TranscriptionSessionView>,
}

impl View for PendingStop {
    type V = PendingStopView;

    closed spec fn view(&self) -> PendingStopView {
        PendingStopView {
            current: self.current@,
            waiting: jobs_view(self.waiting@),
            finished: sessions_view(self.finished@),
        }
    }
}

impl PendingStop {
    /// The session whose audio is to be transcribed now.
    pub fn session_id(&self) -> (out: u128)
        ensures
            out == self@.current.session_id,
    {
        self.current.session_id
    }

    /// The samples to be transcribed now, in the order of arrival.
    pub fn samples(&self) -> (out: &Vec<u32>)
        ensures
            out@ == self@.current.samples,
    {
        &self.current.samples
    }

    /// How many jobs wait behind the current one.
    pub fn waiting(&self) -> (out: usize)
        ensures
            out == self@.waiting.len(),
    {
        self.waiting.len()
    }
}

/// What the caller has to do next.
#[derive(Debug)]
pub enum Step {
    /// Send this message to the client: the request is done.
    Reply(DaemonMessage),
    /// Load the model, then call `finish_start`.
    LoadModel(PendingStart),
    /// Transcribe the current job, then call `transcription_finished`.
    Transcribe(PendingStop),
    /// End the process.
    Shutdown,
}

/// `Step` as a mathematical value.
pub enum StepView {
    Reply(DaemonMessageView),
    LoadModel(PendingStartView),
    Transcribe(PendingStopView),
    Shutdown,
}

impl View for Step {
    type V = StepView;

    open spec fn view(&self) -> StepView {
        match *self {
            Step::Reply(message) => StepView::Reply(message@),
            Step::LoadModel(pending) => StepView::LoadModel(pending@),
            Step::Transcribe(pending) => StepView::Transcribe(pending@),
            Step::Shutdown => StepView::Shutdown,
        }
    }
}

/// What a client is told when a chunk names a session that is not registered.
pub open spec fn session_not_found() -> Seq<char> {
    "session not found"@
}

/// What a client is told when a chunk arrives for a session whose recording
/// has been stopped.
pub open spec fn buffer_not_found() -> Seq<char> {
    "Audio buffer not found"@
}

/// How the report of a failed load begins.
pub open spec fn load_failure_prefix() -> Seq<char> {
    "Failed to load Whisper model: "@
}

/// What a client is told when it tries to set the sensitivity.
pub open spec fn sensitivity_unsupported() -> Seq<char> {
    "Sensitivity control is not supported"@
}

/// The reply that ends a stop: the finished session where there is exactly
/// one, else the plain acknowledgement.
pub open spec fn stop_reply(finished: Seq<TranscriptionSessionView>) -> DaemonMessageView {
    if finished.len() == 1 {
        DaemonMessageView::TranscriptionComplete(finished[0])
    } else {
        DaemonMessageView::RecordingStopped
    }
}

/// A result of the model as the result that the registry records: the text,
/// or the error in words.
pub open spec fn recorded(result: Result<Seq<char>, ModelErrorView>) -> Result<
    Seq<char>,
    Seq<char>,
> {
    match result {
        Ok(text) => Ok(text),
        Err(e) => Err(e.message()),
    }
}

/// `Daemon` as a mathematical value.
pub struct DaemonView {
    pub config: ConfigView,
    pub model: WhisperManagerView,
    pub sessions: SessionRegistryView,
    pub start_time: u128,
}

impl DaemonView {
    /// The daemon as it starts at `now`: no model loaded, no session open.
    pub open spec fn initial(config: ConfigView, now: u128) -> DaemonView {
        DaemonView {
            config,
            model: WhisperManagerView { config: config.whisper, state: ModelState::Unloaded },
            sessions: SessionRegistryView::empty(),
            start_time: now,
        }
    }

    /// No session identifier is registered twice.
    pub open spec fn wf(self) -> bool {
        self.sessions.wf()
    }

    /// Time since the daemon started; zero where `now` lies before that.
    pub open spec fn uptime(self, now: u128) -> u128 {
        if now >= self.start_time {
            (now - self.start_time) as u128
        } else {
            0
        }
    }

    /// The snapshot that `GetStatus` is answered with.
    pub open spec fn status(self, now: u128) -> DaemonStatusView {
        DaemonStatusView {
            model_loaded: self.model.is_loaded(),
            active_sessions: self.sessions.ids(),
            uptime: self.uptime(now),
        }
    }

    /// Start of a recording under the identifier `id`: the session is
    /// registered with an empty buffer, and the model is asked for. With the
    /// model in memory the start is confirmed at once; else it waits for the
    /// load.
    pub open spec fn start_session(self, id: u128, now: u128) -> (DaemonView, StepView) {
        let sessions = self.sessions.insert(SessionEntryView::fresh(id, now));
        let (model, decision) = self.model.ensure_loaded(now);
        let next = DaemonView { model, sessions, ..self };
        match decision {
            LoadDecision::AlreadyLoaded => (
                next,
                StepView::Reply(DaemonMessageView::RecordingStarted(id)),
            ),
            LoadDecision::Load => (
                next,
                StepView::LoadModel(PendingStartView { session_id: id }),
            ),
        }
    }

    /// End of a start that waited for the model. After a load that worked the
    /// start is confirmed. After one that failed the session is taken out of
    /// the registry again and the client is told why.
    pub open spec fn finish_start(
        self,
        pending: PendingStartView,
        outcome: LoadOutcomeView,
        now: u128,
    ) -> (DaemonView, DaemonMessageView) {
        let (model, result) = self.model.load_finished(outcome, now);
        match result {
            Ok(_) => (
                DaemonView { model, ..self },
                DaemonMessageView::RecordingStarted(pending.session_id),
            ),
            Err(e) => (
                DaemonView { model, sessions: self.sessions.remove(pending.session_id), ..self },
                DaemonMessageView::Error(load_failure_prefix() + e.message()),
            ),
        }
    }

    /// Arrival of a chunk: appended to the buffer of its session and
    /// acknowledged, or refused without any change.
    pub open spec fn handle_audio_chunk(self, chunk: AudioChunkView) -> (
        DaemonView,
        DaemonMessageView,
    ) {
        match self.sessions.append_outcome(chunk) {
            AppendOutcome::SessionNotFound => (
                self,
                DaemonMessageView::Error(session_not_found()),
            ),
            AppendOutcome::BufferMissing => (self, DaemonMessageView::Error(buffer_not_found())),
            AppendOutcome::Appended => (
                DaemonView { sessions: self.sessions.append_audio(chunk), ..self },
                DaemonMessageView::TranscriptionUpdate {
                    session_id: chunk.session_id,
                    partial_text: Seq::empty(),
                    is_final: false,
                },
            ),
        }
    }

    /// The result of one job is recorded: the session, where it is still
    /// registered, is completed or failed, and joins the finished ones.
    pub open spec fn record(
        self,
        id: u128,
        result: Result<Seq<char>, ModelErrorView>,
        finished: Seq<TranscriptionSessionView>,
    ) -> (DaemonView, Seq<TranscriptionSessionView>) {
        if self.sessions.contains(id) {
            (
                DaemonView { sessions: self.sessions.finish(id, recorded(result)), ..self },
                finished.push(self.sessions.finished_session(id, recorded(result))),
            )
        } else {
            (self, finished)
        }
    }

    /// The stop goes on with the jobs that wait. With the model in memory the
    /// first of them is handed out for transcription. Without it every job
    /// fails as `NotLoaded`. When no job is left the registry is cleared and
    /// the client gets `stop_reply`.
    pub open spec fn advance(
        self,
        waiting: Seq<TranscriptionJobView>,
        finished: Seq<TranscriptionSessionView>,
    ) -> (DaemonView, StepView)
        decreases waiting.len(),
    {
        if waiting.len() == 0 {
            (
                DaemonView { sessions: SessionRegistryView::empty(), ..self },
                StepView::Reply(stop_reply(finished)),
            )
        } else if self.model.is_loaded() {
            (
                self,
                StepView::Transcribe(
                    PendingStopView {
                        current: waiting.first(),
                        waiting: waiting.drop_first(),
                        finished,
                    },
                ),
            )
        } else {
            let (next, done) = self.record(
                waiting.first().session_id,
                Err(ModelErrorView::NotLoaded),
                finished,
            );
            next.advance(waiting.drop_first(), done)
        }
    }

    /// Stop of all recordings: every buffer leaves the registry, and those
    /// that hold samples become the jobs to go through, oldest session first.
    pub open spec fn stop_recording(self) -> (DaemonView, StepView) {
        DaemonView { sessions: self.sessions.without_buffers(), ..self }.advance(
            self.sessions.jobs(),
            Seq::empty(),
        )
    }

    /// Arrival of what the engine made of the current job: the model takes
    /// note, the result is recorded, and the stop goes on.
    pub open spec fn transcription_finished(
        self,
        pending: PendingStopView,
        outcome: TranscriptOutcomeView,
        now: u128,
    ) -> (DaemonView, StepView) {
        let (model, result) = self.model.transcribe_audio(outcome, now);
        let (next, done) = DaemonView { model, ..self }.record(
            pending.current.session_id,
            result,
            pending.finished,
        );
        next.advance(pending.waiting, done)
    }

    /// What the daemon does with a message at `now`, where `id` is the
    /// identifier that a new session would get.
    pub open spec fn handle(self, message: ClientMessageView, id: u128, now: u128) -> (
        DaemonView,
        StepView,
    ) {
        match message {
            ClientMessageView::StartRecording => self.start_session(id, now),
            ClientMessageView::StopRecording => self.stop_recording(),
            ClientMessageView::StreamAudio(chunk) => (
                self.handle_audio_chunk(chunk).0,
                StepView::Reply(self.handle_audio_chunk(chunk).1),
            ),
            ClientMessageView::GetStatus => (
                self,
                StepView::Reply(DaemonMessageView::Status(self.status(now))),
            ),
            ClientMessageView::ClearSession => (
                DaemonView { sessions: SessionRegistryView::empty(), ..self },
                StepView::Reply(DaemonMessageView::SessionCleared),
            ),
            ClientMessageView::SetSensitivity(_) => (
                self,
                StepView::Reply(DaemonMessageView::Error(sensitivity_unsupported())),
            ),
            ClientMessageView::Shutdown => (self, StepView::Shutdown),
        }
    }
}

/// The state of the daemon: its settings, the model's lifecycle, the open
/// sessions and the time it started.
#[derive(Debug)]
pub struct Daemon {
    config: Config,
    whisper_manager: WhisperManager,
    sessions: SessionRegistry,
    start_time: u128,
}

impl View for Daemon {
    type V = DaemonView;

    closed spec fn view(&self) -> DaemonView {
        DaemonView {
            config: self.config@,
            model: self.whisper_manager@,
            sessions: self.sessions@,
            start_time: self.start_time,
        }
    }
}

impl Daemon {
    /// A daemon that starts at `now`, with no model loaded and no session
    /// open.
    pub fn new(config: Config, now: u128) -> (out: Self)
        ensures
            out@ == DaemonView::initial(config@, now),
            out@.wf(),
    {
        let whisper_manager = WhisperManager::new(&config.whisper);
        Daemon { config, whisper_manager, sessions: SessionRegistry::new(), start_time: now }
    }

    /// The settings the daemon was made with.
    pub fn config(&self) -> (out: &Config)
        ensures
            out@ == self@.config,
    {
        &self.config
    }

    /// Whether the model is in memory.
    pub fn is_model_loaded(&self) -> (out: bool)
        ensures
            out == self@.model.is_loaded(),
    {
        self.whisper_manager.is_loaded()
    }

    /// The identifiers of the open sessions, oldest first.
    pub fn session_ids(&self) -> (out: Vec<u128>)
        ensures
            out@ == self@.sessions.ids(),
    {
        self.sessions.list_ids()
    }

    /// Handles one message of a client, as `handle` says.
    ///
    /// `StartRecording` draws a random identifier and goes on as
    /// `start_session` does; no other message looks at an identifier.
    /// `StopRecording` is answered as `stop_recording` does, `StreamAudio` as
    /// `handle_audio_chunk`, `GetStatus` as `get_status`. `ClearSession`
    /// empties the registry, `SetSensitivity` is refused, and `Shutdown`
    /// changes nothing and asks the caller to end the process.
    pub fn handle_message(&mut self, message: ClientMessage, now: u128) -> (out: Step)
        ensures
            final(self)@.wf(),
            exists|id: u128|
                is_random_id(id) && (final(self)@, out@) == old(self)@.handle(message@, id, now),
    {
        proof {
            use_type_invariant(&self.sessions);
        }
        assert(is_random_id(RANDOM_KIND)) by {
            assert(0x4000_8000_0000_0000_0000u128 & 0xF000_C000_0000_0000_0000u128
                == 0x4000_8000_0000_0000_0000u128) by (bit_vector);
        }
        match message {
            ClientMessage::StartRecording => self.start_recording(now),
            ClientMessage::StopRecording => self.stop_recording(),
            ClientMessage::StreamAudio(chunk) => Step::Reply(self.handle_audio_chunk(chunk)),
            ClientMessage::GetStatus => Step::Reply(self.get_status(now)),
            ClientMessage::ClearSession => {
                self.sessions.clear();
                Step::Reply(DaemonMessage::SessionCleared)
            },
            ClientMessage::SetSensitivity(_) => Step::Reply(
                DaemonMessage::Error(String::from_str("Sensitivity control is not supported")),
            ),
            ClientMessage::Shutdown => Step::Shutdown,
        }
    }

    /// Starts a recording under a random identifier.
    pub fn start_recording(&mut self, now: u128) -> (out: Step)
        ensures
            final(self)@.wf(),
            exists|id: u128|
                is_random_id(id) && (final(self)@, out@) == old(self)@.start_session(id, now),
    {
        let id: u128 = random_id();
        self.start_session(id, now)
    }

    /// Starts a recording under the identifier `id`.
    ///
    /// The session is registered with an empty buffer, in place of any
    /// session that had the identifier. With the model in memory the answer
    /// is `RecordingStarted`; else it is `LoadModel`, and the caller goes on
    /// with `finish_start`.
    pub fn start_session(&mut self, id: u128, now: u128) -> (out: Step)
        ensures
            final(self)@.wf(),
            (final(self)@, out@) == old(self)@.start_session(id, now),
            final(self)@.sessions.contains(id),
            final(self)@.sessions.entry(id) == SessionEntryView::fresh(id, now),
    {
        self.sessions.create(id, now);
        match self.whisper_manager.ensure_loaded(now) {
            LoadDecision::AlreadyLoaded => Step::Reply(DaemonMessage::RecordingStarted(id)),
            LoadDecision::Load => Step::LoadModel(PendingStart { session_id: id }),
        }
    }

    /// Ends a start that waited for the model.
    ///
    /// After `Loaded` the model counts as in memory and the answer is
    /// `RecordingStarted`. After a failure the session is taken out of the
    /// registry, the model stays unloaded so that the next start tries again,
    /// and the answer is an `Error` that gives the reason.
    pub fn finish_start(&mut self, pending: PendingStart, outcome: LoadOutcome, now: u128) -> (out:
        DaemonMessage)
        ensures
            final(self)@.wf(),
            (final(self)@, out@) == old(self)@.finish_start(pending@, outcome@, now),
    {
        proof {
            use_type_invariant(&self.sessions);
        }
        match self.whisper_manager.load_finished(outcome, now) {
            Ok(_) => DaemonMessage::RecordingStarted(pending.session_id),
            Err(e) => {
                self.sessions.remove(pending.session_id);
                let reason = e.message();
                DaemonMessage::Error(
                    String::from_str("Failed to load Whisper model: ").concat(reason.as_str()),
                )
            },
        }
    }

    /// Takes in a chunk of audio.
    ///
    /// Where no session has the chunk's identifier the answer is
    /// `Error("session not found")`, where the session's recording has been
    /// stopped it is `Error("Audio buffer not found")`, and in both cases
    /// nothing changes. Otherwise the chunk is appended to the session's
    /// buffer and acknowledged with an empty `TranscriptionUpdate` that is not
    /// final.
    pub fn handle_audio_chunk(&mut self, chunk: AudioChunk) -> (out: DaemonMessage)
        ensures
            final(self)@.wf(),
            (final(self)@, out@) == old(self)@.handle_audio_chunk(chunk@),
    {
        match self.sessions.append_audio(&chunk) {
            AppendOutcome::SessionNotFound => DaemonMessage::Error(
                String::from_str("session not found"),
            ),
            AppendOutcome::BufferMissing => DaemonMessage::Error(
                String::from_str("Audio buffer not found"),
            ),
            AppendOutcome::Appended => DaemonMessage::TranscriptionUpdate {
                session_id: chunk.session_id,
                partial_text: String::new(),
                is_final: false,
            },
        }
    }

    /// Stops all recordings.
    ///
    /// Every buffer leaves the registry. The sessions whose buffer held
    /// samples are transcribed one after the other, oldest first: the answer
    /// is `Transcribe` with the first of them, and the caller goes on with
    /// `transcription_finished`. Where there is nothing to transcribe the
    /// registry is cleared and the answer is `RecordingStopped`.
    pub fn stop_recording(&mut self) -> (out: Step)
        ensures
            final(self)@.wf(),
            (final(self)@, out@) == old(self)@.stop_recording(),
    {
        let waiting = self.sessions.take_jobs();
        let finished: Vec<TranscriptionSession> = Vec::new();
        assert(sessions_view(finished@) =~= Seq::empty());
        self.advance(waiting, finished)
    }

    /// Takes in what the engine made of the current job and goes on with the
    /// stop.
    ///
    /// The session of the job becomes `Completed` with the normalized text,
    /// or `Failed` with the error in words. The answer is `Transcribe` with
    /// the next job, or, after the last, the reply to the client: the
    /// finished session as `TranscriptionComplete` where exactly one session
    /// was finished, else `RecordingStopped`. With that reply the registry is
    /// cleared.
    pub fn transcription_finished(
        &mut self,
        pending: PendingStop,
        outcome: TranscriptOutcome,
        now: u128,
    ) -> (out: Step)
        ensures
            final(self)@.wf(),
            (final(self)@, out@) == old(self)@.transcription_finished(pending@, outcome@, now),
    {
        let PendingStop { current, waiting, finished } = pending;
        let mut finished = finished;
        let result = self.whisper_manager.transcribe_audio(outcome, now);
        self.record(current.session_id, result, &mut finished);
        self.advance(waiting, finished)
    }

    /// Answers `GetStatus`: whether the model is loaded, which sessions are
    /// open, and how long the daemon has been running.
    pub fn get_status(&self, now: u128) -> (out: DaemonMessage)
        ensures
            out@ == DaemonMessageView::Status(self@.status(now)),
    {
        let uptime: u128 = if now >= self.start_time {
            now - self.start_time
        } else {
            0
        };
        DaemonMessage::Status(
            DaemonStatus {
                model_loaded: self.whisper_manager.is_loaded(),
                active_sessions: self.sessions.list_ids(),
                uptime,
            },
        )
    }

    /// Releases the model where it has been idle for longer than the
    /// configured timeout, and says whether it did. Meant to be called from
    /// time to time.
    pub fn unload_idle_model(&mut self, now: u128) -> (out: bool)
        ensures
            out == old(self)@.model.unload_if_timeout(now).1,
            final(self)@ == (DaemonView {
                model: old(self)@.model.unload_if_timeout(now).0,
                ..old(self)@
            }),
    {
        self.whisper_manager.unload_if_timeout(now)
    }

    /// Records the result of one job.
    fn record(
        &mut self,
        id: u128,
        result: Result<String, ModelError>,
        finished: &mut Vec<TranscriptionSession>,
    )
        ensures
            final(self)@.wf(),
            (final(self)@, sessions_view(final(finished)@)) == old(self)@.record(
                id,
                model_result_view(result),
                sessions_view(old(finished)@),
            ),
    {
        let entry: Result<String, String> = match result {
            Ok(text) => Ok(text),
            Err(e) => Err(e.message()),
        };
        match self.sessions.finish(id, entry) {
            Some(session) => {
                finished.push(session);
            },
            None => {},
        }
    }

    /// Goes on with a stop.
    fn advance(
        &mut self,
        waiting: Vec<TranscriptionJob>,
        finished: Vec<TranscriptionSession>,
    ) -> (out: Step)
        ensures
            final(self)@.wf(),
            (final(self)@, out@) == old(self)@.advance(
                jobs_view(waiting@),
                sessions_view(finished@),
            ),
    {
        proof {
            use_type_invariant(&self.sessions);
        }
        let ghost goal = old(self)@.advance(jobs_view(waiting@), sessions_view(finished@));
        let mut queue = waiting;
        let mut done = finished;
        loop
            invariant
                self@.wf(),
                goal == old(self)@.advance(jobs_view(waiting@), sessions_view(finished@)),
                self@.advance(jobs_view(queue@), sessions_view(done@)) == goal,
            decreases queue@.len(),
        {
            if queue.len() == 0 {
                self.sessions.clear();
                let reply = if done.len() == 1 {
                    match done.pop() {
                        Some(session) => DaemonMessage::TranscriptionComplete(session),
                        None => DaemonMessage::RecordingStopped,
                    }
                } else {
                    DaemonMessage::RecordingStopped
                };
                return Step::Reply(reply);
            }
            let ghost jobs = jobs_view(queue@);
            let job = queue.remove(0);
            assert(jobs_view(queue@) =~= jobs.drop_first());
            if self.whisper_manager.is_loaded() {
                return Step::Transcribe(
                    PendingStop { current: job, waiting: queue, finished: done },
                );
            }
            self.record(job.session_id, Err(ModelError::NotLoaded), &mut done);
        }
    }
}

/// A result of the model over strings as a result over characters.
pub open spec fn model_result_view(result: Result<String, ModelError>) -> Result<
    Seq<char>,
    ModelErrorView,
> {
    match result {
        Ok(text) => Ok(text@),
        Err(e) => Err(e@),
    }
}

/// A chunk for a session that is not registered is refused with
/// `Error("session not found")`, and the daemon stays exactly as it was: no
/// session and no buffer come into being.
pub proof fn lemma_unknown_session_is_refused(daemon: DaemonView, chunk: AudioChunkView)
    requires
        !daemon.sessions.contains(chunk.session_id),
    ensures
        daemon.handle_audio_chunk(chunk) == (
            daemon,
            DaemonMessageView::Error(session_not_found()),
        ),
{
}

/// A stop that finds no session with audio, and so a stop that finds no
/// session at all, is answered with `RecordingStopped`, and leaves the
/// registry empty.
pub proof fn lemma_stop_without_audio(daemon: DaemonView)
    requires
        forall|i: int|
            0 <= i < daemon.sessions.entries.len() ==> !(
            #[trigger] daemon.sessions.entries[i]).has_audio(),
    ensures
        daemon.stop_recording().1 == StepView::Reply(DaemonMessageView::RecordingStopped),
        daemon.stop_recording().0 == (DaemonView {
            sessions: SessionRegistryView::empty(),
            ..daemon
        }),
{
    lemma_no_audio_no_jobs(daemon.sessions.entries);
}

/// Before any recording was started the status reports no model and no
/// session.
pub proof fn lemma_status_at_start(config: ConfigView, start: u128, now: u128)
    ensures
        !DaemonView::initial(config, start).status(now).model_loaded,
        DaemonView::initial(config, start).status(now).active_sessions == Seq::<u128>::empty(),
{
}

/// A start finds the model in memory or has it loaded; either way the client
/// gets `RecordingStarted` with the session's identifier, the session is
/// registered, and the model is in memory afterwards.
pub proof fn lemma_start_confirms(daemon: DaemonView, id: u128, now: u128, loaded_at: u128)
    requires
        daemon.wf(),
    ensures
        daemon.start_session(id, now).0.wf(),
        daemon.start_session(id, now).0.sessions.contains(id),
        daemon.model.is_loaded() ==> daemon.start_session(id, now).1 == StepView::Reply(
            DaemonMessageView::RecordingStarted(id),
        ) && daemon.start_session(id, now).0.model.is_loaded(),
        !daemon.model.is_loaded() ==> ({
            let (waiting, step) = daemon.start_session(id, now);
            let pending = PendingStartView { session_id: id };
            &&& step == StepView::LoadModel(pending)
            &&& waiting.finish_start(pending, LoadOutcomeView::Loaded, loaded_at).1
                == DaemonMessageView::RecordingStarted(id)
            &&& waiting.finish_start(
                pending,
                LoadOutcomeView::Loaded,
                loaded_at,
            ).0.model.is_loaded()
            &&& waiting.finish_start(pending, LoadOutcomeView::Loaded, loaded_at).0.sessions
                == waiting.sessions
        }),
{
    daemon.sessions.lemma_insert_keeps_wf(SessionEntryView::fresh(id, now));
}

/// A start whose load fails leaves no session behind and the model unloaded,
/// and tells the client why.
pub proof fn lemma_failed_start_unwinds(
    daemon: DaemonView,
    id: u128,
    now: u128,
    outcome: LoadOutcomeView,
    failed_at: u128,
)
    requires
        daemon.wf(),
        !daemon.model.is_loaded(),
        !(outcome is Loaded),
    ensures
        ({
            let waiting = daemon.start_session(id, now).0;
            let (after, reply) = waiting.finish_start(
                PendingStartView { session_id: id },
                outcome,
                failed_at,
            );
            &&& reply is Error
            &&& !after.model.is_loaded()
            &&& !after.sessions.contains(id)
            &&& after.wf()
        }),
{
    daemon.sessions.lemma_insert_keeps_wf(SessionEntryView::fresh(id, now));
    daemon.start_session(id, now).0.sessions.lemma_remove_keeps_wf(id);
}

/// Recording a result leaves every identifier where it was.
pub proof fn lemma_record_keeps_wf(
    daemon: DaemonView,
    id: u128,
    result: Result<Seq<char>, ModelErrorView>,
    finished: Seq<TranscriptionSessionView>,
)
    requires
        daemon.wf(),
    ensures
        daemon.record(id, result, finished).0.wf(),
        daemon.record(id, result, finished).0.model == daemon.model,
{
    daemon.sessions.lemma_finish_keeps_wf(id, recorded(result));
}

/// Going on with a stop keeps the identifiers distinct, however many jobs
/// wait.
pub proof fn lemma_advance_keeps_wf(
    daemon: DaemonView,
    waiting: Seq<TranscriptionJobView>,
    finished: Seq<TranscriptionSessionView>,
)
    requires
        daemon.wf(),
    ensures
        daemon.advance(waiting, finished).0.wf(),
    decreases waiting.len(),
{
    if waiting.len() > 0 && !daemon.model.is_loaded() {
        let failed = Err::<Seq<char>, ModelErrorView>(ModelErrorView::NotLoaded);
        lemma_record_keeps_wf(daemon, waiting.first().session_id, failed, finished);
        let (next, done) = daemon.record(waiting.first().session_id, failed, finished);
        lemma_advance_keeps_wf(next, waiting.drop_first(), done);
    }
}

/// No identifier is ever registered twice: whatever message arrives, and
/// however a load or a transcription ends, a daemon whose identifiers are
/// distinct stays so.
pub proof fn lemma_distinct_ids_are_kept(
    daemon: DaemonView,
    message: ClientMessageView,
    id: u128,
    now: u128,
    start: PendingStartView,
    load: LoadOutcomeView,
    stop: PendingStopView,
    transcript: TranscriptOutcomeView,
)
    requires
        daemon.wf(),
    ensures
        daemon.handle(message, id, now).0.wf(),
        daemon.finish_start(start, load, now).0.wf(),
        daemon.transcription_finished(stop, transcript, now).0.wf(),
{
    daemon.sessions.lemma_insert_keeps_wf(SessionEntryView::fresh(id, now));
    daemon.sessions.lemma_remove_keeps_wf(start.session_id);
    daemon.sessions.lemma_without_buffers_keeps_wf();
    lemma_advance_keeps_wf(
        DaemonView { sessions: daemon.sessions.without_buffers(), ..daemon },
        daemon.sessions.jobs(),
        Seq::empty(),
    );
    if let ClientMessageView::StreamAudio(chunk) = message {
        daemon.sessions.lemma_append_keeps_wf(chunk);
    }
    let (model, result) = daemon.model.transcribe_audio(transcript, now);
    let noted = DaemonView { model, ..daemon };
    lemma_record_keeps_wf(noted, stop.current.session_id, result, stop.finished);
    let (next, done) = noted.record(stop.current.session_id, result, stop.finished);
    lemma_advance_keeps_wf(next, stop.waiting, done);
}

/// A stop comes to its end. Going on with it yields either the reply, and
/// then the registry is empty and the reply is the one finished session or
/// the plain acknowledgement, or a job to transcribe, and then fewer jobs
/// wait than before. It never asks for a load or for the end of the process.
pub proof fn lemma_stop_makes_progress(
    daemon: DaemonView,
    waiting: Seq<TranscriptionJobView>,
    finished: Seq<TranscriptionSessionView>,
)
    ensures
        match daemon.advance(waiting, finished).1 {
            StepView::Reply(reply) => {
                &&& daemon.advance(waiting, finished).0.sessions == SessionRegistryView::empty()
                &&& reply is TranscriptionComplete || reply is RecordingStopped
            },
            StepView::Transcribe(pending) => {
                &&& pending.waiting.len() < waiting.len()
                &&& daemon.advance(waiting, finished).0.model.is_loaded()
            },
            _ => false,
        },
    decreases waiting.len(),
{
    if waiting.len() > 0 && !daemon.model.is_loaded() {
        let failed = Err::<Seq<char>, ModelErrorView>(ModelErrorView::NotLoaded);
        let (next, done) = daemon.record(waiting.first().session_id, failed, finished);
        lemma_stop_makes_progress(next, waiting.drop_first(), done);
    }
}

/// One recording from start to transcript. With the model in memory and no
/// other session open: the session is started, a chunk with samples is
/// streamed and acknowledged, the stop hands out exactly that audio for
/// transcription, and the engine's text comes back to the client as
/// `TranscriptionComplete` for this session, `Completed`, with the normalized
/// text. The audio's duration is the chunk's sample count over its rate times
/// its channels, and the registry is empty at the end.
pub proof fn lemma_single_recording(
    daemon: DaemonView,
    id: u128,
    started: u128,
    chunk: AudioChunkView,
    raw: Seq<char>,
    transcribed: u128,
)
    requires
        daemon.sessions.entries.len() == 0,
        daemon.model.is_loaded(),
        chunk.session_id == id,
        chunk.data.len() > 0,
    ensures
        ({
            let (recording, first) = daemon.start_session(id, started);
            let (streamed, ack) = recording.handle_audio_chunk(chunk);
            let (stopping, second) = streamed.stop_recording();
            let job = TranscriptionJobView { session_id: id, samples: chunk.data };
            let pending = PendingStopView {
                current: job,
                waiting: Seq::empty(),
                finished: Seq::empty(),
            };
            let (done, last) = stopping.transcription_finished(
                pending,
                TranscriptOutcomeView::Text(raw),
                transcribed,
            );
            &&& first == StepView::Reply(DaemonMessageView::RecordingStarted(id))
            &&& ack == DaemonMessageView::TranscriptionUpdate {
                session_id: id,
                partial_text: Seq::empty(),
                is_final: false,
            }
            &&& streamed.sessions.entry(id).buffer is Some
            &&& streamed.sessions.entry(id).buffer->Some_0.data == chunk.data
            &&& chunk.sample_rate > 0 && chunk.channels > 0 ==> streamed.sessions.entry(
                id,
            ).buffer->Some_0.duration() == (
                chunk.data.len() as int,
                chunk.sample_rate * chunk.channels,
            )
            &&& second == StepView::Transcribe(pending)
            &&& last == StepView::Reply(
                DaemonMessageView::TranscriptionComplete(
                    TranscriptionSessionView::fresh(id, started).completed(normalized(raw)),
                ),
            )
            &&& done.sessions == SessionRegistryView::empty()
        }),
{
    let fresh = SessionEntryView::fresh(id, started);
    let filled = SessionEntryView { buffer: Some(fresh.buffer->Some_0.append(chunk)), ..fresh };
    let job = TranscriptionJobView { session_id: id, samples: chunk.data };

    let recording = daemon.start_session(id, started).0;
    assert(recording.sessions.entries =~= seq![fresh]);
    recording.sessions.lemma_position(id, 0);

    let streamed = recording.handle_audio_chunk(chunk).0;
    assert(streamed.sessions.entries =~= seq![filled]);
    streamed.sessions.lemma_position(id, 0);
    assert(filled.buffer->Some_0.data =~= chunk.data);

    assert(jobs_of(streamed.sessions.entries.drop_last()) =~= Seq::<
        TranscriptionJobView,
    >::empty());
    assert(streamed.sessions.jobs() =~= seq![job]);
    assert(seq![job].drop_first() =~= Seq::<TranscriptionJobView>::empty());

    let stopping = streamed.stop_recording().0;
    assert(stopping.sessions.entries =~= seq![filled.without_buffer()]);
    stopping.sessions.lemma_position(id, 0);
}

} // verus!

//! The sessions that are open, each with the audio it has recorded.
//!
//! Sessions are kept in the order in which they were started, and no
//! identifier occurs twice. A session owns its buffer until the recording is
//! stopped; from then on the session is still registered, without a buffer,
//! until the registry is cleared.

use crate::audio::{AudioBuffer, AudioBufferView};
use crate::types::{
    AudioChunk,
    AudioChunkView,
    SessionStatus,
    TranscriptionSession,
    TranscriptionSessionView,
};
use vstd::prelude::*;

verus! {

/// A session and the buffer it records into.
#[derive(Debug)]
pub struct SessionEntry {
    session: TranscriptionSession,
    buffer: Option<AudioBuffer>,
}

/// `SessionEntry` as a mathematical value.
pub struct SessionEntryView {
    pub session: TranscriptionSessionView,
    pub buffer: Option<AudioBufferView>,
}

impl View for SessionEntry {
    type V = SessionEntryView;

    closed spec fn view(&self) -> SessionEntryView {
        SessionEntryView {
            session: self.session@,
            buffer: match self.buffer {
                Some(b) => Some(b@),
                None => None,
            },
        }
    }
}

/// The audio of one session, taken out of the registry to be transcribed.
#[derive(Debug, PartialEq, Eq)]
pub struct TranscriptionJob {
    pub session_id: u128,
    pub samples: Vec<u32>,
}

/// `TranscriptionJob` as a mathematical value.
pub struct TranscriptionJobView {
    pub session_id: u128,
    pub samples: Seq<u32>,
}

impl View for TranscriptionJob {
    type V = TranscriptionJobView;

    open spec fn view(&self) -> TranscriptionJobView {
        TranscriptionJobView { session_id: self.session_id, samples: self.samples@ }
    }
}

/// What became of a chunk that was to be appended.
#[derive(Clone, Copy, Debug, PartialEq, Eq, Structural)]
pub enum AppendOutcome {
    Appended,
    /// No session has the chunk's identifier.
    SessionNotFound,
    /// The session is registered, but its recording has been stopped.
    BufferMissing,
}

impl SessionEntryView {
    /// The entry of a session that starts at `now`: recording, with an empty
    /// buffer.
    pub open spec fn fresh(id: u128, now: u128) -> SessionEntryView {
        SessionEntryView {
            session: TranscriptionSessionView::fresh(id, now),
            buffer: Some(AudioBufferView::fresh(now)),
        }
    }

    /// Whether the entry still has a buffer, and samples in it.
    pub open spec fn has_audio(self) -> bool {
        self.buffer is Some && self.buffer->Some_0.data.len() > 0
    }

    /// The job that transcribes the entry's audio.
    pub open spec fn job(self) -> TranscriptionJobView
        recommends
            self.buffer is Some,
    {
        TranscriptionJobView { session_id: self.session.id, samples: self.buffer->Some_0.data }
    }

    /// The entry after its recording has been stopped.
    pub open spec fn without_buffer(self) -> SessionEntryView {
        SessionEntryView { buffer: None, ..self }
    }
}

/// The jobs for those of `entries` that hold audio, in the entries' order.
pub open spec fn jobs_of(entries: Seq<SessionEntryView>) -> Seq<TranscriptionJobView>
    decreases entries.len(),
{
    if entries.len() == 0 {
        Seq::empty()
    } else if entries.last().has_audio() {
        jobs_of(entries.drop_last()).push(entries.last().job())
    } else {
        jobs_of(entries.drop_last())
    }
}

/// Sessions without audio give no jobs.
pub proof fn lemma_no_audio_no_jobs(entries: Seq<SessionEntryView>)
    requires
        forall|i: int| 0 <= i < entries.len() ==> !(#[trigger] entries[i]).has_audio(),
    ensures
        jobs_of(entries) == Seq::<TranscriptionJobView>::empty(),
    decreases entries.len(),
{
    if entries.len() > 0 {
        lemma_no_audio_no_jobs(entries.drop_last());
    }
}

/// `SessionRegistry` as a mathematical value: the entries, oldest first.
pub struct SessionRegistryView {
    pub entries: Seq<SessionEntryView>,
}

impl SessionRegistryView {
    /// No identifier occurs twice.
    pub open spec fn wf(self) -> bool {
        forall|i: int, j: int|
            0 <= i < j < self.entries.len() ==> self.entries[i].session.id
                != self.entries[j].session.id
    }

    pub open spec fn empty() -> SessionRegistryView {
        SessionRegistryView { entries: Seq::empty() }
    }

    /// Whether a session with this identifier is registered.
    pub open spec fn contains(self, id: u128) -> bool {
        exists|i: int| 0 <= i < self.entries.len() && #[trigger] self.entries[i].session.id == id
    }

    /// Where the session with this identifier stands.
    pub open spec fn position(self, id: u128) -> int
        recommends
            self.contains(id),
    {
        choose|i: int| 0 <= i < self.entries.len() && #[trigger] self.entries[i].session.id == id
    }

    /// The entry of the session with this identifier.
    pub open spec fn entry(self, id: u128) -> SessionEntryView
        recommends
            self.contains(id),
    {
        self.entries[self.position(id)]
    }

    /// The identifiers, oldest session first.
    pub open spec fn ids(self) -> Seq<u128> {
        self.entries.map_values(|e: SessionEntryView| e.session.id)
    }

    /// The registry with `entry` registered: in the place of the entry that
    /// had its identifier, or else behind all others.
    pub open spec fn insert(self, entry: SessionEntryView) -> SessionRegistryView {
        if self.contains(entry.session.id) {
            SessionRegistryView {
                entries: self.entries.update(self.position(entry.session.id), entry),
            }
        } else {
            SessionRegistryView { entries: self.entries.push(entry) }
        }
    }

    /// The registry without the session of this identifier.
    pub open spec fn remove(self, id: u128) -> SessionRegistryView {
        if self.contains(id) {
            SessionRegistryView { entries: self.entries.remove(self.position(id)) }
        } else {
            self
        }
    }

    /// What `append_audio` answers for `chunk`.
    pub open spec fn append_outcome(self, chunk: AudioChunkView) -> AppendOutcome {
        if !self.contains(chunk.session_id) {
            AppendOutcome::SessionNotFound
        } else if self.entry(chunk.session_id).buffer is None {
            AppendOutcome::BufferMissing
        } else {
            AppendOutcome::Appended
        }
    }

    /// The registry after `append_audio`: where the chunk's session is
    /// registered and still has a buffer, the chunk is appended to it, and
    /// nothing else changes.
    pub open spec fn append_audio(self, chunk: AudioChunkView) -> SessionRegistryView {
        if self.append_outcome(chunk) == AppendOutcome::Appended {
            let entry = self.entry(chunk.session_id);
            SessionRegistryView {
                entries: self.entries.update(
                    self.position(chunk.session_id),
                    SessionEntryView {
                        buffer: Some(entry.buffer->Some_0.append(chunk)),
                        ..entry
                    },
                ),
            }
        } else {
            self
        }
    }

    /// The jobs for the sessions that hold audio, oldest session first.
    pub open spec fn jobs(self) -> Seq<TranscriptionJobView> {
        jobs_of(self.entries)
    }

    /// The registry after every recording has been stopped.
    pub open spec fn without_buffers(self) -> SessionRegistryView {
        SessionRegistryView {
            entries: self.entries.map_values(|e: SessionEntryView| e.without_buffer()),
        }
    }

    /// The session of this identifier as it is once `result` is recorded:
    /// completed with the text, or failed for the reason.
    pub open spec fn finished_session(
        self,
        id: u128,
        result: Result<Seq<char>, Seq<char>>,
    ) -> TranscriptionSessionView
        recommends
            self.contains(id),
    {
        match result {
            Ok(text) => self.entry(id).session.completed(text),
            Err(reason) => self.entry(id).session.failed(reason),
        }
    }

    /// The registry after `finish`: the session of this identifier, where
    /// there is one, is replaced by its finished form.
    pub open spec fn finish(
        self,
        id: u128,
        result: Result<Seq<char>, Seq<char>>,
    ) -> SessionRegistryView {
        if self.contains(id) {
            SessionRegistryView {
                entries: self.entries.update(
                    self.position(id),
                    SessionEntryView {
                        session: self.finished_session(id, result),
                        ..self.entry(id)
                    },
                ),
            }
        } else {
            self
        }
    }

    /// In a well-formed registry an identifier is found in one place only.
    pub proof fn lemma_position(self, id: u128, i: int)
        requires
            self.wf(),
            0 <= i < self.entries.len(),
            self.entries[i].session.id == id,
        ensures
            self.contains(id),
            self.position(id) == i,
            self.entry(id) == self.entries[i],
    {
        let found = self.position(id);
        assert(self.entries[found].session.id == self.entries[i].session.id);
    }

    /// Registering an entry keeps the identifiers distinct, and the entry is
    /// found under its identifier afterwards.
    pub proof fn lemma_insert_keeps_wf(self, entry: SessionEntryView)
        requires
            self.wf(),
        ensures
            self.insert(entry).wf(),
            self.insert(entry).contains(entry.session.id),
            self.insert(entry).entry(entry.session.id) == entry,
    {
        let id = entry.session.id;
        let after = self.insert(entry);
        let at = if self.contains(id) {
            self.position(id)
        } else {
            self.entries.len() as int
        };
        assert forall|i: int, j: int|
        0 <= i < j < after.entries.len() implies after.entries[i].session.id
            != after.entries[j].session.id by {
            if !self.contains(id) && j == at {
                assert(self.entries[i].session.id != id);
            }
        }
        after.lemma_position(id, at);
    }

    /// Taking a session out keeps the identifiers distinct, and the session
    /// is gone afterwards.
    pub proof fn lemma_remove_keeps_wf(self, id: u128)
        requires
            self.wf(),
        ensures
            self.remove(id).wf(),
            !self.remove(id).contains(id),
    {
        let after = self.remove(id);
        if self.contains(id) {
            let at = self.position(id);
            let before = |i: int|
                if i < at {
                    i
                } else {
                    i + 1
                };
            assert forall|i: int|
            0 <= i < after.entries.len() implies #[trigger] after.entries[i].session.id
                != id by {
                assert(after.entries[i] == self.entries[before(i)]);
            }
            assert forall|i: int, j: int|
        0 <= i < j < after.entries.len() implies after.entries[i].session.id
                != after.entries[j].session.id by {
                assert(after.entries[i] == self.entries[before(i)]);
                assert(after.entries[j] == self.entries[before(j)]);
            }
        }
    }

    /// Entries that keep their identifiers keep them distinct.
    pub proof fn lemma_same_ids_keep_wf(self, after: SessionRegistryView)
        requires
            self.wf(),
            after.ids() == self.ids(),
        ensures
            after.wf(),
    {
        assert(after.entries.len() == after.ids().len());
        assert forall|i: int, j: int|
        0 <= i < j < after.entries.len() implies after.entries[i].session.id
            != after.entries[j].session.id by {
            assert(after.entries[i].session.id == after.ids()[i] == self.entries[i].session.id);
            assert(after.entries[j].session.id == after.ids()[j] == self.entries[j].session.id);
        }
    }

    /// Appending audio changes no identifier.
    pub proof fn lemma_append_keeps_wf(self, chunk: AudioChunkView)
        requires
            self.wf(),
        ensures
            self.append_audio(chunk).ids() == self.ids(),
            self.append_audio(chunk).wf(),
    {
        assert(self.append_audio(chunk).ids() =~= self.ids());
        self.lemma_same_ids_keep_wf(self.append_audio(chunk));
    }

    /// Finishing a session changes no identifier.
    pub proof fn lemma_finish_keeps_wf(self, id: u128, result: Result<Seq<char>, Seq<char>>)
        requires
            self.wf(),
        ensures
            self.finish(id, result).ids() == self.ids(),
            self.finish(id, result).wf(),
    {
        assert(self.finish(id, result).ids() =~= self.ids());
        self.lemma_same_ids_keep_wf(self.finish(id, result));
    }

    /// Stopping the recordings changes no identifier.
    pub proof fn lemma_without_buffers_keeps_wf(self)
        requires
            self.wf(),
        ensures
            self.without_buffers().ids() == self.ids(),
            self.without_buffers().wf(),
    {
        assert(self.without_buffers().ids() =~= self.ids());
        self.lemma_same_ids_keep_wf(self.without_buffers());
    }
}

/// The entries of a registry as a mathematical value.
closed spec fn entries_view(entries: Seq<SessionEntry>) -> SessionRegistryView {
    SessionRegistryView { entries: entries.map_values(|e: SessionEntry| e@) }
}

/// The keyed collection of open sessions.
#[derive(Debug)]
pub struct SessionRegistry {
    entries: Vec<SessionEntry>,
}

impl View for SessionRegistry {
    type V = SessionRegistryView;

    closed spec fn view(&self) -> SessionRegistryView {
        entries_view(self.entries@)
    }
}

/// Where the session of this identifier stands among `entries`, if it does.
fn find(entries: &Vec<SessionEntry>, id: u128) -> (out: Option<usize>)
    requires
        entries_view(entries@).wf(),
    ensures
        match out {
            Some(i) => {
                &&& i < entries@.len()
                &&& entries@[i as int].session.id == id
                &&& entries_view(entries@).contains(id)
                &&& entries_view(entries@).position(id) == i
            },
            None => !entries_view(entries@).contains(id),
        },
{
    let mut i: usize = 0;
    while i < entries.len()
        invariant
            i <= entries@.len(),
            entries_view(entries@).wf(),
            forall|k: int| 0 <= k < i ==> entries_view(entries@).entries[k].session.id != id,
        decreases entries@.len() - i,
    {
        if entries[i].session.id == id {
            proof {
                entries_view(entries@).lemma_position(id, i as int);
            }
            return Some(i);
        }
        i += 1;
    }
    None
}

/// `SessionRegistry::create` on the entries.
fn create_in(entries: &mut Vec<SessionEntry>, id: u128, now: u128)
    requires
        entries_view(old(entries)@).wf(),
    ensures
        entries_view(final(entries)@) == entries_view(old(entries)@).insert(
            SessionEntryView::fresh(id, now),
        ),
        entries_view(final(entries)@).wf(),
        entries_view(final(entries)@).contains(id),
        entries_view(final(entries)@).entry(id) == SessionEntryView::fresh(id, now),
{
    let entry = SessionEntry {
        session: TranscriptionSession::new(id, now),
        buffer: Some(AudioBuffer::new(now)),
    };
    let ghost before = entries_view(entries@);
    let ghost fresh = SessionEntryView::fresh(id, now);
    proof {
        before.lemma_insert_keeps_wf(fresh);
    }
    match find(entries, id) {
        Some(i) => {
            entries[i] = entry;
            assert(entries_view(entries@).entries =~= before.entries.update(i as int, fresh));
            assert(entries_view(entries@).entries[i as int].session.id == id);
        },
        None => {
            entries.push(entry);
            assert(entries_view(entries@).entries =~= before.entries.push(fresh));
            assert(entries_view(entries@).entries[entries@.len() - 1].session.id == id);
        },
    }
}

/// `SessionRegistry::remove` on the entries.
fn remove_from(entries: &mut Vec<SessionEntry>, id: u128) -> (out: bool)
    requires
        entries_view(old(entries)@).wf(),
    ensures
        out == entries_view(old(entries)@).contains(id),
        entries_view(final(entries)@) == entries_view(old(entries)@).remove(id),
        entries_view(final(entries)@).wf(),
        !entries_view(final(entries)@).contains(id),
{
    let ghost before = entries_view(entries@);
    match find(entries, id) {
        Some(i) => {
            entries.remove(i);
            assert(entries_view(entries@).entries =~= before.entries.remove(i as int));
            true
        },
        None => false,
    }
}

/// `SessionRegistry::append_audio` on the entries.
fn append_to(entries: &mut Vec<SessionEntry>, chunk: &AudioChunk) -> (out: AppendOutcome)
    requires
        entries_view(old(entries)@).wf(),
    ensures
        out == entries_view(old(entries)@).append_outcome(chunk@),
        entries_view(final(entries)@) == entries_view(old(entries)@).append_audio(chunk@),
        entries_view(final(entries)@).wf(),
        entries_view(final(entries)@).ids() == entries_view(old(entries)@).ids(),
{
    let ghost before = entries_view(entries@);
    match find(entries, chunk.session_id) {
        None => AppendOutcome::SessionNotFound,
        Some(i) => {
            if entries[i].buffer.is_none() {
                return AppendOutcome::BufferMissing;
            }
            let entry = &mut entries[i];
            match &mut entry.buffer {
                Some(buffer) => {
                    buffer.append_chunk(chunk);
                },
                None => {},
            }
            assert(entries_view(entries@).entries =~= before.append_audio(chunk@).entries);
            AppendOutcome::Appended
        },
    }
}

/// `SessionRegistry::take_jobs` on the entries.
fn take_jobs_from(entries: &mut Vec<SessionEntry>) -> (out: Vec<TranscriptionJob>)
    ensures
        jobs_view(out@) == entries_view(old(entries)@).jobs(),
        entries_view(final(entries)@) == entries_view(old(entries)@).without_buffers(),
        entries_view(final(entries)@).ids() == entries_view(old(entries)@).ids(),
        entries_view(old(entries)@).wf() ==> entries_view(final(entries)@).wf(),
{
    let ghost before = entries_view(entries@);
    let mut out: Vec<TranscriptionJob> = Vec::new();
    let mut i: usize = 0;
    while i < entries.len()
        invariant
            i <= entries@.len(),
            entries@.len() == before.entries.len(),
            before == entries_view(old(entries)@),
            jobs_view(out@) == jobs_of(before.entries.subrange(0, i as int)),
            forall|k: int|
                0 <= k < i ==> #[trigger] entries_view(entries@).entries[k]
                    == before.entries[k].without_buffer(),
            forall|k: int|
                i <= k < entries@.len() ==> #[trigger] entries_view(entries@).entries[k]
                    == before.entries[k],
        decreases entries@.len() - i,
    {
        let ghost earlier = entries_view(entries@);
        assert(before.entries.subrange(0, i as int + 1).drop_last() =~= before.entries.subrange(
            0,
            i as int,
        ));
        assert(earlier.entries[i as int] == before.entries[i as int]);
        let entry = &mut entries[i];
        let session_id: u128 = entry.session.id;
        let taken: Option<AudioBuffer> = entry.buffer.take();
        match taken {
            Some(buffer) => {
                if !buffer.is_empty() {
                    out.push(TranscriptionJob { session_id, samples: buffer.drain() });
                }
            },
            None => {},
        }
        assert(forall|k: int|
            0 <= k < entries@.len() && k != i ==> #[trigger] entries_view(entries@).entries[k]
                == earlier.entries[k]);
        i += 1;
    }
    assert(before.entries.subrange(0, i as int) =~= before.entries);
    assert(entries_view(entries@).entries =~= before.without_buffers().entries);
    out
}

/// `SessionRegistry::finish` on the entries.
fn finish_in(entries: &mut Vec<SessionEntry>, id: u128, result: Result<String, String>) -> (out:
    Option<TranscriptionSession>)
    requires
        entries_view(old(entries)@).wf(),
    ensures
        entries_view(final(entries)@) == entries_view(old(entries)@).finish(
            id,
            result_view(result),
        ),
        entries_view(final(entries)@).wf(),
        entries_view(final(entries)@).ids() == entries_view(old(entries)@).ids(),
        match out {
            Some(session) => entries_view(old(entries)@).contains(id) && session@
                == entries_view(old(entries)@).finished_session(id, result_view(result)),
            None => !entries_view(old(entries)@).contains(id),
        },
{
    let ghost before = entries_view(entries@);
    match find(entries, id) {
        None => None,
        Some(i) => {
            let entry = &mut entries[i];
            match result {
                Ok(text) => {
                    entry.session.text = text;
                    entry.session.status = SessionStatus::Completed;
                },
                Err(reason) => {
                    entry.session.status = SessionStatus::Failed(reason);
                },
            }
            let copy = entry.session.clone();
            assert(entries_view(entries@).entries =~= before.finish(
                id,
                result_view(result),
            ).entries);
            Some(copy)
        },
    }
}

impl SessionRegistry {
    /// No identifier is registered twice. This holds of every registry at
    /// all times.
    #[verifier::type_invariant]
    pub open spec fn distinct_ids(self) -> bool {
        self@.wf()
    }

    /// A registry without sessions.
    pub fn new() -> (out: Self)
        ensures
            out@ == SessionRegistryView::empty(),
            out@.wf(),
    {
        let entries: Vec<SessionEntry> = Vec::new();
        assert(entries_view(entries@).entries =~= Seq::empty());
        SessionRegistry { entries }
    }

    /// Lends the entries out, leaving none behind.
    fn take_entries(&mut self) -> (out: Vec<SessionEntry>)
        ensures
            entries_view(out@) == old(self)@,
            out@ == old(self).entries@,
            final(self)@ == SessionRegistryView::empty(),
            old(self)@.wf(),
    {
        proof {
            use_type_invariant(&*self);
        }
        let mut entries: Vec<SessionEntry> = Vec::new();
        assert(entries_view(entries@).entries =~= Seq::empty());
        std::mem::swap(&mut entries, &mut self.entries);
        entries
    }

    /// Number of sessions registered.
    pub fn len(&self) -> (out: usize)
        ensures
            out == self@.entries.len(),
    {
        self.entries.len()
    }

    /// Whether no session is registered.
    pub fn is_empty(&self) -> (out: bool)
        ensures
            out == (self@.entries.len() == 0),
    {
        self.entries.len() == 0
    }

    /// Whether a session with this identifier is registered.
    pub fn contains(&self, id: u128) -> (out: bool)
        ensures
            out == self@.contains(id),
    {
        proof {
            use_type_invariant(self);
        }
        find(&self.entries, id).is_some()
    }

    /// The session with this identifier, if it is registered.
    pub fn get(&self, id: u128) -> (out: Option<&TranscriptionSession>)
        ensures
            match out {
                Some(session) => self@.contains(id) && session@ == self@.entry(id).session,
                None => !self@.contains(id),
            },
    {
        proof {
            use_type_invariant(self);
        }
        match find(&self.entries, id) {
            Some(i) => Some(&self.entries[i].session),
            None => None,
        }
    }

    /// Registers a session that starts recording at `now`, with an empty
    /// buffer. A session that had the identifier is replaced.
    pub fn create(&mut self, id: u128, now: u128)
        ensures
            final(self)@ == old(self)@.insert(SessionEntryView::fresh(id, now)),
            final(self)@.wf(),
            final(self)@.contains(id),
            final(self)@.entry(id) == SessionEntryView::fresh(id, now),
    {
        let mut entries = self.take_entries();
        create_in(&mut entries, id, now);
        self.entries = entries;
    }

    /// Takes the session with this identifier out of the registry, with its
    /// buffer, and says whether there was one.
    pub fn remove(&mut self, id: u128) -> (out: bool)
        ensures
            out == old(self)@.contains(id),
            final(self)@ == old(self)@.remove(id),
            final(self)@.wf(),
            !final(self)@.contains(id),
    {
        let mut entries = self.take_entries();
        let out = remove_from(&mut entries, id);
        self.entries = entries;
        out
    }

    /// Takes every session out of the registry.
    pub fn clear(&mut self)
        ensures
            final(self)@ == SessionRegistryView::empty(),
            final(self)@.wf(),
    {
        let _ = self.take_entries();
    }

    /// The identifiers of the sessions, oldest first.
    pub fn list_ids(&self) -> (out: Vec<u128>)
        ensures
            out@ == self@.ids(),
    {
        let mut out: Vec<u128> = Vec::new();
        let mut i: usize = 0;
        while i < self.entries.len()
            invariant
                i <= self.entries@.len(),
                out@.len() == i,
                forall|k: int| 0 <= k < i ==> out@[k] == self@.entries[k].session.id,
            decreases self.entries@.len() - i,
        {
            out.push(self.entries[i].session.id);
            i += 1;
        }
        out
    }

    /// Appends `chunk` to the buffer of its session.
    ///
    /// The answer is `SessionNotFound` where no session has the chunk's
    /// identifier and `BufferMissing` where the session's recording has been
    /// stopped; in both cases nothing changes.
    pub fn append_audio(&mut self, chunk: &AudioChunk) -> (out: AppendOutcome)
        ensures
            out == old(self)@.append_outcome(chunk@),
            final(self)@ == old(self)@.append_audio(chunk@),
            final(self)@.wf(),
            final(self)@.ids() == old(self)@.ids(),
    {
        let mut entries = self.take_entries();
        let out = append_to(&mut entries, chunk);
        self.entries = entries;
        out
    }

    /// Stops every recording: all buffers leave the registry, and those that
    /// hold samples come back as jobs, oldest session first. The sessions
    /// stay registered.
    pub fn take_jobs(&mut self) -> (out: Vec<TranscriptionJob>)
        ensures
            jobs_view(out@) == old(self)@.jobs(),
            final(self)@ == old(self)@.without_buffers(),
            final(self)@.ids() == old(self)@.ids(),
            final(self)@.wf(),
    {
        let mut entries = self.take_entries();
        let out = take_jobs_from(&mut entries);
        self.entries = entries;
        out
    }

    /// Records how the transcription of a session ended and hands out a copy
    /// of the session as it then is.
    ///
    /// `Ok` carries the transcript: the session becomes `Completed` and its
    /// text is replaced. `Err` carries the reason: the session becomes
    /// `Failed` and keeps its text. Where no session has the identifier the
    /// answer is `None` and nothing changes.
    pub fn finish(&mut self, id: u128, result: Result<String, String>) -> (out: Option<
        TranscriptionSession,
    >)
        ensures
            final(self)@ == old(self)@.finish(id, result_view(result)),
            final(self)@.wf(),
            final(self)@.ids() == old(self)@.ids(),
            match out {
                Some(session) => old(self)@.contains(id) && session@ == old(
                    self,
                )@.finished_session(id, result_view(result)),
                None => !old(self)@.contains(id),
            },
    {
        let mut entries = self.take_entries();
        let out = finish_in(&mut entries, id, result);
        self.entries = entries;
        out
    }
}

/// Jobs as mathematical values, in their order.
pub open spec fn jobs_view(jobs: Seq<TranscriptionJob>) -> Seq<TranscriptionJobView> {
    jobs.map_values(|j: TranscriptionJob| j@)
}

/// Sessions as mathematical values, in their order.
pub open spec fn sessions_view(sessions: Seq<TranscriptionSession>) -> Seq<
    TranscriptionSessionView,
> {
    sessions.map_values(|s: TranscriptionSession| s@)
}

/// A result over strings as a result over their characters.
pub open spec fn result_view(result: Result<String, String>) -> Result<Seq<char>, Seq<char>> {
    match result {
        Ok(text) => Ok(text@),
        Err(reason) => Err(reason@),
    }
}

} // verus!

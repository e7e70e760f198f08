//! The upload endpoint as a state machine. The caller reads the multipart
//! payload and talks to the object store and the database; the session
//! decides what to do with each outcome and what to answer.
use vstd::prelude::*;
use crate::hex::is_lower_hex_char;
use crate::digest::{digest_text, sha256_hex};
use crate::ident::{is_random_draw, is_uuid_v4_text, new_artifact_id, uuid_v4_text_of};
use crate::metadata::{
    artifacts_bucket, bucket_name, is_upload_record, status_clean, status_in_progress, ArtifactMetadata, StatusUpdate,
};
use crate::reply::{is_text_reply, text_reply, Body, Reply};
use crate::text::owned;

verus! {

/// Where an upload stands.
#[derive(Debug, Clone, Copy, PartialEq, Eq)]
pub enum UploadPhase {
    /// Reading the multipart payload.
    Receiving,
    /// Waiting for the object store to keep the contents.
    Storing,
    /// Waiting for a reading of the clock, the upload time.
    Timing,
    /// Waiting for the database to keep the metadata.
    Recording,
    /// Waiting for the database to record the scan result.
    Scanning,
    /// The reply has been given.
    Done,
}

/// What the caller observed.
#[derive(Debug)]
pub enum UploadEvent {
    /// A multipart field was opened; its file name, if it has one.
    FieldOpened(Option<String>),
    /// A multipart field could not be read; it is skipped.
    FieldFailed,
    /// A chunk of the current field's contents.
    Chunk(Vec<u8>),
    /// The payload has no more fields.
    PayloadEnd,
    /// Whether the object store accepted the contents.
    Stored(bool),
    /// The upload time read from the clock (`clock::upload_time_now`), or
    /// `None` when the clock could not be read.
    ClockRead(Option<String>),
    /// Whether the database accepted the metadata.
    Recorded(bool),
    /// Whether the database accepted the scan status.
    Scanned(bool),
}

/// What the caller is to do next.
#[derive(Debug)]
pub enum UploadAction {
    /// Read the next field or chunk of the payload.
    ReadPayload,
    /// Put `body` into `bucket` under `key`.
    StoreObject { bucket: String, key: String, body: Vec<u8> },
    /// Read the clock for the upload time.
    ReadClock,
    /// Insert this record into the database.
    InsertMetadata(ArtifactMetadata),
    /// Apply this scan status change in the database.
    UpdateStatus(StatusUpdate),
    /// Answer the request with this reply; the upload is over.
    Reply(Reply),
}

/// The abstract state of an upload.
pub struct UploadState {
    pub id: Seq<char>,
    pub filename: Seq<char>,
    pub received: Seq<u8>,
    pub phase: UploadPhase,
}

/// One upload request in progress.
pub struct UploadSession {
    id: String,
    original_filename: String,
    file_bytes: Vec<u8>,
    digest: String,
    phase: UploadPhase,
}

impl View for UploadSession {
    type V = UploadState;

    closed spec fn view(&self) -> UploadState {
        UploadState {
            id: self.id@,
            filename: self.original_filename@,
            received: self.file_bytes@,
            phase: self.phase,
        }
    }
}

/// The file name recorded when the payload names none.
pub open spec fn default_filename() -> Seq<char> {
    "unknown"@
}

/// Whether the upload in state `s` takes event `e` next.
pub open spec fn upload_accepts(s: UploadState, e: UploadEvent) -> bool {
    match s.phase {
        UploadPhase::Receiving => e is FieldOpened || e is FieldFailed || e is Chunk || e is PayloadEnd,
        UploadPhase::Storing => e is Stored,
        UploadPhase::Timing => e is ClockRead,
        UploadPhase::Recording => e is Recorded,
        UploadPhase::Scanning => e is Scanned,
        UploadPhase::Done => false,
    }
}

/// The state after a payload event while receiving.
pub open spec fn receive(s: UploadState, e: UploadEvent) -> UploadState {
    match e {
        UploadEvent::FieldOpened(Some(name)) => UploadState { filename: name@, ..s },
        UploadEvent::Chunk(data) => UploadState { received: s.received + data@, ..s },
        UploadEvent::PayloadEnd => UploadState { phase: UploadPhase::Storing, ..s },
        _ => s,
    }
}

/// The reply text when the system clock cannot be read (it reads before the
/// epoch or beyond the dates that can be written).
pub open spec fn clock_failure_text() -> Seq<char> {
    "Failed to read the system clock"@
}

/// Whether `d` has the shape of a SHA-256 digest text: 64 lower-case hex
/// digits.
pub open spec fn is_digest_shape(d: Seq<char>) -> bool {
    &&& d.len() == 64
    &&& forall|i: int| 0 <= i < 64 ==> is_lower_hex_char(#[trigger] d[i])
}

/// Whether `m` is the record of the upload in state `s`, uploaded at `time`:
/// its id, file name, the number and digest of the bytes received, the upload
/// note and a scan in progress.
pub open spec fn is_fresh_record(m: ArtifactMetadata, s: UploadState, time: Seq<char>) -> bool {
    &&& is_upload_record(m, s.id, s.filename, s.received.len() as u64, digest_text(s.received), time)
    &&& is_digest_shape(m.sha256@)
}

/// How one accepted event moves an upload from `pre` to `post`, with the
/// action `a` handed back.
pub open spec fn upload_step(pre: UploadState, e: UploadEvent, post: UploadState, a: UploadAction) -> bool {
    match pre.phase {
        UploadPhase::Receiving => {
            &&& post == receive(pre, e)
            &&& if e is PayloadEnd {
                a matches UploadAction::StoreObject { bucket, key, body }
                    && bucket@ == bucket_name() && key@ == pre.id && body@ == pre.received
            } else {
                a is ReadPayload
            }
        },
        UploadPhase::Storing => match e {
            UploadEvent::Stored(true) => {
                &&& post == UploadState { phase: UploadPhase::Timing, ..pre }
                &&& a is ReadClock
            },
            _ => {
                &&& post == UploadState { phase: UploadPhase::Done, ..pre }
                &&& a matches UploadAction::Reply(r) && is_text_reply(r, 500, "Failed to upload artifact"@)
            },
        },
        UploadPhase::Timing => match e {
            UploadEvent::ClockRead(Some(t)) => {
                &&& post == UploadState { phase: UploadPhase::Recording, ..pre }
                &&& a matches UploadAction::InsertMetadata(m) && is_fresh_record(m, pre, t@)
            },
            _ => {
                &&& post == UploadState { phase: UploadPhase::Done, ..pre }
                &&& a matches UploadAction::Reply(r) && is_text_reply(r, 500, clock_failure_text())
            },
        },
        UploadPhase::Recording => match e {
            UploadEvent::Recorded(true) => {
                &&& post == UploadState { phase: UploadPhase::Scanning, ..pre }
                &&& a matches UploadAction::UpdateStatus(u) && u.id@ == pre.id && u.scan_status@ == status_clean()
            },
            _ => {
                &&& post == UploadState { phase: UploadPhase::Done, ..pre }
                &&& a matches UploadAction::Reply(r) && is_text_reply(r, 500, "Failed to save artifact metadata"@)
            },
        },
        _ => {
            &&& post == UploadState { phase: UploadPhase::Done, ..pre }
            &&& a matches UploadAction::Reply(r) && is_text_reply(r, 200, pre.id)
        },
    }
}

impl UploadSession {
    /// Once the payload has ended, the digest kept is that of the bytes
    /// received, 64 lower-case hex digits.
    #[verifier::type_invariant]
    closed spec fn digest_matches(self) -> bool {
        self.phase != UploadPhase::Receiving ==> {
            &&& self.digest@ == digest_text(self.file_bytes@)
            &&& is_digest_shape(self.digest@)
        }
    }

    /// A new upload with identifier `id`: nothing received yet, file name
    /// `unknown`.
    pub fn with_id(id: String) -> (s: UploadSession)
        ensures
            s@.id == id@,
            s@.filename == default_filename(),
            s@.received == Seq::<u8>::empty(),
            s@.phase == UploadPhase::Receiving,
    {
        UploadSession {
            id,
            original_filename: owned("unknown"),
            file_bytes: Vec::new(),
            digest: String::new(),
            phase: UploadPhase::Receiving,
        }
    }

    /// A new upload under a fresh random identifier; `None` when no random
    /// bytes can be had.
    pub fn start() -> (s: Option<UploadSession>)
        ensures
            exists|r: Option<[u8; 16]>| #[trigger] is_random_draw(r) && match r {
                Some(b) => s matches Some(s) && s@.id == uuid_v4_text_of(b@),
                None => s is None,
            },
            s matches Some(s) ==> {
                &&& is_uuid_v4_text(s@.id)
                &&& s@.filename == default_filename()
                &&& s@.received == Seq::<u8>::empty()
                &&& s@.phase == UploadPhase::Receiving
            },
    {
        match new_artifact_id() {
            Some(id) => Some(UploadSession::with_id(id)),
            None => None,
        }
    }

    /// The identifier of this upload.
    pub fn id(&self) -> (id: &str)
        ensures
            id@ == self@.id,
    {
        self.id.as_str()
    }

    /// The number of bytes received so far.
    pub fn total_bytes(&self) -> (n: u64)
        ensures
            n == self@.received.len(),
    {
        self.file_bytes.len() as u64
    }

    /// The phase of this upload.
    pub fn phase(&self) -> (p: UploadPhase)
        ensures
            p == self@.phase,
    {
        self.phase
    }

    /// Whether this upload takes `e` next.
    pub fn accepts(&self, e: &UploadEvent) -> (b: bool)
        ensures
            b == upload_accepts(self@, *e),
    {
        match self.phase {
            UploadPhase::Receiving => match e {
                UploadEvent::FieldOpened(_) | UploadEvent::FieldFailed | UploadEvent::Chunk(_)
                | UploadEvent::PayloadEnd => true,
                _ => false,
            },
            UploadPhase::Storing => match e {
                UploadEvent::Stored(_) => true,
                _ => false,
            },
            UploadPhase::Timing => match e {
                UploadEvent::ClockRead(_) => true,
                _ => false,
            },
            UploadPhase::Recording => match e {
                UploadEvent::Recorded(_) => true,
                _ => false,
            },
            UploadPhase::Scanning => match e {
                UploadEvent::Scanned(_) => true,
                _ => false,
            },
            UploadPhase::Done => false,
        }
    }

    /// Takes one event and returns what to do next.
    pub fn step(&mut self, e: UploadEvent) -> (a: UploadAction)
        requires
            upload_accepts(old(self)@, e),
        ensures
            upload_step(old(self)@, e, final(self)@, a),
    {
        proof {
            use_type_invariant(&*self);
        }
        match self.phase {
            UploadPhase::Receiving => match e {
                UploadEvent::FieldOpened(Some(name)) => {
                    self.original_filename = name;
                    UploadAction::ReadPayload
                },
                UploadEvent::Chunk(data) => {
                    let mut data = data;
                    let mut bytes = Vec::new();
                    std::mem::swap(&mut bytes, &mut self.file_bytes);
                    bytes.append(&mut data);
                    self.file_bytes = bytes;
                    UploadAction::ReadPayload
                },
                UploadEvent::PayloadEnd => {
                    self.digest = sha256_hex(self.file_bytes.as_slice());
                    self.phase = UploadPhase::Storing;
                    UploadAction::StoreObject {
                        bucket: artifacts_bucket(),
                        key: self.id.clone(),
                        body: self.file_bytes.clone(),
                    }
                },
                _ => UploadAction::ReadPayload,
            },
            UploadPhase::Storing => match e {
                UploadEvent::Stored(true) => {
                    self.phase = UploadPhase::Timing;
                    UploadAction::ReadClock
                },
                _ => {
                    self.phase = UploadPhase::Done;
                    UploadAction::Reply(text_reply(500, "Failed to upload artifact"))
                },
            },
            UploadPhase::Timing => match e {
                UploadEvent::ClockRead(Some(upload_time)) => {
                    let m = ArtifactMetadata::for_upload(
                        self.id.clone(),
                        self.original_filename.clone(),
                        self.file_bytes.len() as u64,
                        self.digest.clone(),
                        upload_time,
                    );
                    self.phase = UploadPhase::Recording;
                    UploadAction::InsertMetadata(m)
                },
                _ => {
                    self.phase = UploadPhase::Done;
                    UploadAction::Reply(text_reply(500, "Failed to read the system clock"))
                },
            },
            UploadPhase::Recording => match e {
                UploadEvent::Recorded(true) => {
                    self.phase = UploadPhase::Scanning;
                    UploadAction::UpdateStatus(StatusUpdate::mark_clean(self.id.as_str()))
                },
                _ => {
                    self.phase = UploadPhase::Done;
                    UploadAction::Reply(text_reply(500, "Failed to save artifact metadata"))
                },
            },
            _ => {
                self.phase = UploadPhase::Done;
                UploadAction::Reply(Reply { status: 200, body: Body::Text(self.id.clone()) })
            },
        }
    }
}


/// Whether `e` belongs to the payload: a field or a chunk.
pub open spec fn is_payload_event(e: UploadEvent) -> bool {
    e is FieldOpened || e is FieldFailed || e is Chunk
}

/// The contents of the chunks among `es`, joined in order.
pub open spec fn chunk_bytes(es: Seq<UploadEvent>) -> Seq<u8>
    decreases es.len(),
{
    if es.len() == 0 {
        Seq::empty()
    } else {
        chunk_bytes(es.drop_last()) + match es.last() {
            UploadEvent::Chunk(d) => d@,
            _ => Seq::empty(),
        }
    }
}

/// The file name of the last field among `es` that names one, or `current`
/// when none does.
pub open spec fn last_filename(current: Seq<char>, es: Seq<UploadEvent>) -> Seq<char>
    decreases es.len(),
{
    if es.len() == 0 {
        current
    } else {
        match es.last() {
            UploadEvent::FieldOpened(Some(name)) => name@,
            _ => last_filename(current, es.drop_last()),
        }
    }
}

/// The state after taking the events `es` one by one while receiving.
pub open spec fn receive_all(s: UploadState, es: Seq<UploadEvent>) -> UploadState
    decreases es.len(),
{
    if es.len() == 0 {
        s
    } else {
        receive(receive_all(s, es.drop_last()), es.last())
    }
}

/// Reading the payload appends every chunk, in order, to what was received,
/// keeps the file name of the last field that names one, and changes nothing
/// else.
pub proof fn lemma_receive_payload(s: UploadState, es: Seq<UploadEvent>)
    requires
        forall|i: int| 0 <= i < es.len() ==> is_payload_event(#[trigger] es[i]),
    ensures
        receive_all(s, es) == (UploadState {
            received: s.received + chunk_bytes(es),
            filename: last_filename(s.filename, es),
            ..s
        }),
    decreases es.len(),
{
    if es.len() == 0 {
        assert(s.received + Seq::<u8>::empty() =~= s.received);
    } else {
        let init = es.drop_last();
        assert forall|i: int| 0 <= i < init.len() implies is_payload_event(#[trigger] init[i]) by {
            assert(init[i] == es[i]);
        }
        lemma_receive_payload(s, init);
        assert(is_payload_event(es[es.len() - 1]));
        match es.last() {
            UploadEvent::Chunk(d) => {
                assert(s.received + chunk_bytes(init) + d@ =~= s.received + (chunk_bytes(init) + d@));
            },
            _ => {
                assert(s.received + chunk_bytes(init) + Seq::<u8>::empty() =~= s.received + chunk_bytes(init));
                assert(chunk_bytes(init) + Seq::<u8>::empty() =~= chunk_bytes(init));
            },
        }
    }
}

/// Whether `states`, `events` and `actions` record a run of accepted steps.
pub open spec fn is_upload_run(states: Seq<UploadState>, events: Seq<UploadEvent>, actions: Seq<UploadAction>) -> bool {
    &&& states.len() == events.len() + 1
    &&& actions.len() == events.len()
    &&& forall|i: int| 0 <= i < events.len() ==> {
        &&& upload_accepts(states[i], #[trigger] events[i])
        &&& upload_step(states[i], events[i], states[i + 1], actions[i])
    }
}

/// The state of a fresh upload with identifier `id`.
pub open spec fn fresh_upload(id: Seq<char>) -> UploadState {
    UploadState { id, filename: default_filename(), received: Seq::empty(), phase: UploadPhase::Receiving }
}

proof fn lemma_run_receiving(states: Seq<UploadState>, events: Seq<UploadEvent>, actions: Seq<UploadAction>, k: int)
    requires
        is_upload_run(states, events, actions),
        0 <= k <= events.len(),
        states[0].phase == UploadPhase::Receiving,
        forall|i: int| 0 <= i < k ==> is_payload_event(#[trigger] events[i]),
    ensures
        states[k] == receive_all(states[0], events.take(k)),
    decreases k,
{
    if k > 0 {
        lemma_run_receiving(states, events, actions, k - 1);
        assert(events.take(k).drop_last() =~= events.take(k - 1));
        lemma_receive_payload(states[0], events.take(k - 1));
        assert(upload_step(states[k - 1], events[k - 1], states[k], actions[k - 1]));
        assert(is_payload_event(events[k - 1]));
    }
}

/// Upload integrity: in every run that starts from a fresh upload, reads
/// fields and chunks, ends the payload, has the contents stored and reads the
/// clock as `t`, the object is stored under the upload's identifier with
/// exactly the bytes of the chunks, and the record inserted next names that
/// identifier, the last file name sent (`unknown` when none), the number of
/// bytes stored, the digest of the bytes stored and the time `t`.
pub proof fn lemma_upload_records_what_it_stores(
    id: Seq<char>,
    states: Seq<UploadState>,
    events: Seq<UploadEvent>,
    actions: Seq<UploadAction>,
    t: String,
)
    requires
        is_upload_run(states, events, actions),
        states[0] == fresh_upload(id),
        events.len() >= 3,
        forall|i: int| 0 <= i < events.len() - 3 ==> is_payload_event(#[trigger] events[i]),
        events[events.len() - 3] is PayloadEnd,
        events[events.len() - 2] == UploadEvent::Stored(true),
        events[events.len() - 1] == UploadEvent::ClockRead(Some(t)),
    ensures
        ({
            let n = events.len() as int;
            let sent = chunk_bytes(events.take(n - 3));
            &&& actions[n - 3] matches UploadAction::StoreObject { bucket, key, body }
                && bucket@ == bucket_name() && key@ == id && body@ == sent
            &&& actions[n - 2] is ReadClock
            &&& actions[n - 1] matches UploadAction::InsertMetadata(m)
                && is_upload_record(m, id, last_filename(default_filename(), events.take(n - 3)),
                    sent.len() as u64, digest_text(sent), t@)
                && is_digest_shape(m.sha256@)
            &&& states[n].phase == UploadPhase::Recording
        }),
{
    let n = events.len() as int;
    lemma_run_receiving(states, events, actions, n - 3);
    lemma_receive_payload(states[0], events.take(n - 3));
    assert(Seq::<u8>::empty() + chunk_bytes(events.take(n - 3)) =~= chunk_bytes(events.take(n - 3)));
    assert(upload_step(states[n - 3], events[n - 3], states[n - 2], actions[n - 3]));
    assert(upload_step(states[n - 2], events[n - 2], states[n - 1], actions[n - 2]));
    assert(upload_step(states[n - 1], events[n - 1], states[n], actions[n - 1]));
}

/// Every step keeps the upload's identifier, and every action that names an
/// artifact (the stored object's key, the inserted record, the status change,
/// the success reply) names the upload's own identifier.
pub proof fn lemma_upload_step_keeps_id(pre: UploadState, e: UploadEvent, post: UploadState, a: UploadAction)
    requires
        upload_accepts(pre, e),
        upload_step(pre, e, post, a),
    ensures
        post.id == pre.id,
        a matches UploadAction::StoreObject { key, .. } ==> key@ == pre.id,
        a matches UploadAction::InsertMetadata(m) ==> m.id@ == pre.id,
        a matches UploadAction::UpdateStatus(u) ==> u.id@ == pre.id,
        a matches UploadAction::Reply(r) ==> (r.status == 200 <==> is_text_reply(r, 200, pre.id)),
{
}

/// A reply ends the upload, and a finished upload takes no further event.
pub proof fn lemma_upload_reply_ends(pre: UploadState, e: UploadEvent, post: UploadState, a: UploadAction)
    requires
        upload_accepts(pre, e),
        upload_step(pre, e, post, a),
    ensures
        (a is Reply) <==> (post.phase == UploadPhase::Done),
        forall|e2: UploadEvent| post.phase == UploadPhase::Done ==> !upload_accepts(post, e2),
{
}

/// A new record starts with its scan in progress, and once the database has
/// it the next change marks it clean.
pub proof fn lemma_upload_scan_workflow(pre: UploadState, e: UploadEvent, post: UploadState, a: UploadAction)
    requires
        upload_accepts(pre, e),
        upload_step(pre, e, post, a),
    ensures
        a matches UploadAction::InsertMetadata(m) ==> m.scan_status@ == status_in_progress(),
        a matches UploadAction::UpdateStatus(u) ==> u.scan_status@ == status_clean()
            && pre.phase == UploadPhase::Recording && e == UploadEvent::Recorded(true),
{
}

proof fn lemma_run_after_store(id: Seq<char>, states: Seq<UploadState>, events: Seq<UploadEvent>, actions: Seq<UploadAction>, k: int)
    requires
        is_upload_run(states, events, actions),
        states[0] == fresh_upload(id),
        0 <= k <= events.len(),
    ensures
        states[k].id == id,
        states[k].phase == UploadPhase::Storing ==> k >= 1,
        states[k].phase == UploadPhase::Storing ==> (actions[k - 1] matches UploadAction::StoreObject { key, .. } && key@ == id),
        states[k].phase == UploadPhase::Timing ==> k >= 2,
        states[k].phase == UploadPhase::Timing ==> events[k - 1] == UploadEvent::Stored(true),
        states[k].phase == UploadPhase::Timing ==> (actions[k - 2] matches UploadAction::StoreObject { key, .. } && key@ == id),
    decreases k,
{
    if k > 0 {
        lemma_run_after_store(id, states, events, actions, k - 1);
        assert(upload_accepts(states[k - 1], events[k - 1]));
        assert(upload_step(states[k - 1], events[k - 1], states[k], actions[k - 1]));
    }
}

/// In every run from a fresh upload, a record is inserted only after the
/// object store has accepted the contents: the step before read the clock on
/// a successful store, and the step before that put the contents under the
/// same identifier the record carries. No record ever names an object that
/// was not stored.
pub proof fn lemma_insert_only_after_store(
    id: Seq<char>,
    states: Seq<UploadState>,
    events: Seq<UploadEvent>,
    actions: Seq<UploadAction>,
    i: int,
)
    requires
        is_upload_run(states, events, actions),
        states[0] == fresh_upload(id),
        0 <= i < events.len(),
        actions[i] is InsertMetadata,
    ensures
        i >= 2,
        events[i] matches UploadEvent::ClockRead(Some(_)),
        events[i - 1] == UploadEvent::Stored(true),
        actions[i - 1] is ReadClock,
        actions[i - 2] matches UploadAction::StoreObject { key, .. } && key@ == id,
        actions[i] matches UploadAction::InsertMetadata(m) && m.id@ == id,
{
    lemma_run_after_store(id, states, events, actions, i);
    assert(upload_accepts(states[i], events[i]));
    assert(upload_step(states[i], events[i], states[i + 1], actions[i]));
    lemma_run_after_store(id, states, events, actions, i - 1);
    assert(upload_step(states[i - 1], events[i - 1], states[i], actions[i - 1]));
}

} // verus!

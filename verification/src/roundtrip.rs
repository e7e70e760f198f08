//! Laws that follow an artifact from its upload to a later download or
//! listing. The database and the object store lie between them; each law
//! assumes of them only that they give back what was written.
use vstd::prelude::*;
use crate::digest::digest_text;
use crate::download::{
    attachment_disposition, default_content_type, download_step, is_attachment_reply, DownloadAction,
    DownloadEvent, DownloadPhase, DownloadState,
};
use crate::metadata::{upload_note, ArtifactMetadata};
use crate::reply::{Body, Reply};
use crate::upload::{
    chunk_bytes, default_filename, fresh_upload, is_payload_event, is_upload_run, last_filename,
    lemma_upload_records_what_it_stores, UploadAction, UploadEvent, UploadState,
};

verus! {

/// Whether the events of an upload run are: fields and chunks, the end of the
/// payload, a successful store, and a clock reading `t`.
pub open spec fn is_complete_upload(events: Seq<UploadEvent>, t: String) -> bool {
    &&& events.len() >= 3
    &&& forall|i: int| 0 <= i < events.len() - 3 ==> is_payload_event(#[trigger] events[i])
    &&& events[events.len() - 3] is PayloadEnd
    &&& events[events.len() - 2] == UploadEvent::Stored(true)
    &&& events[events.len() - 1] == UploadEvent::ClockRead(Some(t))
}

/// The bytes an upload run sent: its chunks, in order.
pub open spec fn uploaded_bytes(events: Seq<UploadEvent>) -> Seq<u8> {
    chunk_bytes(events.take(events.len() - 3))
}

/// The file name an upload run recorded: the last one sent, or `unknown`.
pub open spec fn uploaded_name(events: Seq<UploadEvent>) -> Seq<char> {
    last_filename(default_filename(), events.take(events.len() - 3))
}

/// Upload then download: after a complete upload of artifact `id`, a
/// download of `id` that is given back the file name the upload recorded and
/// the bytes it stored asks the store under the same key, and sends exactly
/// the uploaded bytes as an attachment named with the uploaded file name.
pub proof fn lemma_upload_then_download(
    id: Seq<char>,
    states: Seq<UploadState>,
    events: Seq<UploadEvent>,
    actions: Seq<UploadAction>,
    t: String,
    d0: DownloadState,
    d1: DownloadState,
    d2: DownloadState,
    d3: DownloadState,
    name: String,
    ct: Option<String>,
    data: Vec<u8>,
    b1: DownloadAction,
    b2: DownloadAction,
    b3: DownloadAction,
)
    requires
        is_upload_run(states, events, actions),
        states[0] == fresh_upload(id),
        is_complete_upload(events, t),
        d0.id == id,
        d0.phase == DownloadPhase::LookingUp,
        download_step(d0, DownloadEvent::FilenameFound(name), d1, b1),
        download_step(d1, DownloadEvent::ObjectFound(ct), d2, b2),
        download_step(d2, DownloadEvent::BodyRead(data), d3, b3),
        actions[events.len() - 1] matches UploadAction::InsertMetadata(m) ==> name@ == m.original_filename@,
        actions[events.len() - 3] matches UploadAction::StoreObject { body, .. } ==> data@ == body@,
    ensures
        actions[events.len() - 3] matches UploadAction::StoreObject { key, .. } && key@ == id,
        b1 matches DownloadAction::FetchObject { key, .. } && key@ == id,
        b3 matches DownloadAction::Reply(r) && is_attachment_reply(
            r,
            match ct {
                Some(c) => c@,
                None => default_content_type(),
            },
            attachment_disposition(uploaded_name(events)),
            uploaded_bytes(events),
        ),
{
    lemma_upload_records_what_it_stores(id, states, events, actions, t);
}

/// Upload then list: after a complete upload of artifact `id`, a successful
/// listing whose rows include the record the upload inserted, as the database
/// gives it back, shows a row with that identifier, the uploaded file name,
/// size and digest, and the upload note.
pub proof fn lemma_upload_then_list(
    id: Seq<char>,
    states: Seq<UploadState>,
    events: Seq<UploadEvent>,
    actions: Seq<UploadAction>,
    t: String,
    r: Reply,
    rows: Vec<ArtifactMetadata>,
    k: int,
)
    requires
        is_upload_run(states, events, actions),
        states[0] == fresh_upload(id),
        is_complete_upload(events, t),
        r.status == 200,
        r.body == Body::Artifacts(rows),
        0 <= k < rows@.len(),
        actions[events.len() - 1] matches UploadAction::InsertMetadata(m) ==> {
            &&& rows@[k].id@ == m.id@
            &&& rows@[k].original_filename@ == m.original_filename@
            &&& rows@[k].size_bytes == m.size_bytes
            &&& rows@[k].sha256@ == m.sha256@
            &&& rows@[k].metadata@ == m.metadata@
        },
    ensures
        r.body matches Body::Artifacts(listed) && exists|j: int| 0 <= j < listed@.len() && {
            let a = #[trigger] listed@[j];
            &&& a.id@ == id
            &&& a.original_filename@ == uploaded_name(events)
            &&& a.size_bytes == uploaded_bytes(events).len() as u64 as i64
            &&& a.sha256@ == digest_text(uploaded_bytes(events))
            &&& a.metadata@ == upload_note()
        },
{
    lemma_upload_records_what_it_stores(id, states, events, actions, t);
    match r.body {
        Body::Artifacts(listed) => {
            assert(listed == rows);
            let a = listed@[k];
            assert(a.id@ == id);
        },
        _ => {},
    }
}

} // verus!

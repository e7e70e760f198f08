//! The download endpoint as a state machine. The caller queries the database
//! and the object store; the session decides the reply.
use vstd::prelude::*;
use crate::metadata::{artifacts_bucket, bucket_name};
use crate::reply::{is_text_reply, text_reply, Body, Reply};
use crate::text::{join3, opt_chars, owned};

verus! {

/// Where a download stands.
#[derive(Debug, Clone, Copy, PartialEq, Eq)]
pub enum DownloadPhase {
    /// Waiting for the artifact's file name from the database.
    LookingUp,
    /// Waiting for the object store to find the contents.
    Fetching,
    /// Waiting for the contents to be read.
    Reading,
    /// The reply has been given.
    Done,
}

/// What the caller observed.
#[derive(Debug)]
pub enum DownloadEvent {
    /// The database holds this original file name for the artifact.
    FilenameFound(String),
    /// The database query failed, or its row had no readable file name.
    LookupFailed,
    /// The object store has the contents, with this content type if any.
    ObjectFound(Option<String>),
    /// The object store could not deliver the object.
    ObjectMissing,
    /// The contents, read in full.
    BodyRead(Vec<u8>),
    /// Reading the contents failed.
    BodyFailed,
}

/// What the caller is to do next.
#[derive(Debug)]
pub enum DownloadAction {
    /// Look up the original file name of artifact `id`.
    FetchFilename { id: String },
    /// Get the object stored in `bucket` under `key`.
    FetchObject { bucket: String, key: String },
    /// Read the contents of the object found.
    ReadBody,
    /// Answer the request with this reply; the download is over.
    Reply(Reply),
}

/// The abstract state of a download.
pub struct DownloadState {
    pub id: Seq<char>,
    pub filename: Seq<char>,
    pub content_type: Option<Seq<char>>,
    pub phase: DownloadPhase,
}

/// One download request in progress.
pub struct DownloadSession {
    id: String,
    filename: String,
    content_type: Option<String>,
    phase: DownloadPhase,
}

impl View for DownloadSession {
    type V = DownloadState;

    closed spec fn view(&self) -> DownloadState {
        DownloadState {
            id: self.id@,
            filename: self.filename@,
            content_type: opt_chars(self.content_type),
            phase: self.phase,
        }
    }
}

/// The content type sent when the object store names none.
pub open spec fn default_content_type() -> Seq<char> {
    "application/octet-stream"@
}

/// The `Content-Disposition` value that offers `filename` as an attachment.
pub open spec fn attachment_disposition(filename: Seq<char>) -> Seq<char> {
    "attachment; filename=\""@ + filename + "\""@
}

/// Whether `r` has status 200 and sends `data` as an attachment with the
/// given content type and disposition.
pub open spec fn is_attachment_reply(r: Reply, content_type: Seq<char>, disposition: Seq<char>, data: Seq<u8>) -> bool {
    &&& r.status == 200
    &&& r.body matches Body::Attachment { content_type: t, disposition: d, data: sent }
        && t@ == content_type && d@ == disposition && sent@ == data
}

/// Whether the download in state `s` takes event `e` next.
pub open spec fn download_accepts(s: DownloadState, e: DownloadEvent) -> bool {
    match s.phase {
        DownloadPhase::LookingUp => e is FilenameFound || e is LookupFailed,
        DownloadPhase::Fetching => e is ObjectFound || e is ObjectMissing,
        DownloadPhase::Reading => e is BodyRead || e is BodyFailed,
        DownloadPhase::Done => false,
    }
}

/// How one accepted event moves a download from `pre` to `post`, with the
/// action `a` handed back.
pub open spec fn download_step(pre: DownloadState, e: DownloadEvent, post: DownloadState, a: DownloadAction) -> bool {
    match e {
        DownloadEvent::FilenameFound(name) => {
            &&& post == DownloadState { filename: name@, phase: DownloadPhase::Fetching, ..pre }
            &&& a matches DownloadAction::FetchObject { bucket, key } && bucket@ == bucket_name() && key@ == pre.id
        },
        DownloadEvent::LookupFailed => {
            &&& post == DownloadState { phase: DownloadPhase::Done, ..pre }
            &&& a matches DownloadAction::Reply(r) && is_text_reply(r, 500, "Internal Server Error"@)
        },
        DownloadEvent::ObjectFound(ct) => {
            &&& post == DownloadState { content_type: opt_chars(ct), phase: DownloadPhase::Reading, ..pre }
            &&& a is ReadBody
        },
        DownloadEvent::ObjectMissing => {
            &&& post == DownloadState { phase: DownloadPhase::Done, ..pre }
            &&& a matches DownloadAction::Reply(r) && is_text_reply(r, 404, "Artifact not found"@)
        },
        DownloadEvent::BodyRead(data) => {
            &&& post == DownloadState { phase: DownloadPhase::Done, ..pre }
            &&& a matches DownloadAction::Reply(r) && is_attachment_reply(
                r,
                match pre.content_type {
                    Some(t) => t,
                    None => default_content_type(),
                },
                attachment_disposition(pre.filename),
                data@,
            )
        },
        DownloadEvent::BodyFailed => {
            &&& post == DownloadState { phase: DownloadPhase::Done, ..pre }
            &&& a matches DownloadAction::Reply(r) && is_text_reply(r, 500, "Failed to read artifact body"@)
        },
    }
}

impl DownloadSession {
    /// A download of artifact `id`; the first step is to look up its file
    /// name.
    pub fn start(id: String) -> (res: (DownloadSession, DownloadAction))
        ensures
            res.0@.id == id@,
            res.0@.filename == Seq::<char>::empty(),
            res.0@.content_type == None::<Seq<char>>,
            res.0@.phase == DownloadPhase::LookingUp,
            res.1 matches DownloadAction::FetchFilename { id: asked } && asked@ == id@,
    {
        let asked = id.clone();
        (
            DownloadSession { id, filename: String::new(), content_type: None, phase: DownloadPhase::LookingUp },
            DownloadAction::FetchFilename { id: asked },
        )
    }

    /// The phase of this download.
    pub fn phase(&self) -> (p: DownloadPhase)
        ensures
            p == self@.phase,
    {
        self.phase
    }

    /// Whether this download takes `e` next.
    pub fn accepts(&self, e: &DownloadEvent) -> (b: bool)
        ensures
            b == download_accepts(self@, *e),
    {
        match self.phase {
            DownloadPhase::LookingUp => match e {
                DownloadEvent::FilenameFound(_) | DownloadEvent::LookupFailed => true,
                _ => false,
            },
            DownloadPhase::Fetching => match e {
                DownloadEvent::ObjectFound(_) | DownloadEvent::ObjectMissing => true,
                _ => false,
            },
            DownloadPhase::Reading => match e {
                DownloadEvent::BodyRead(_) | DownloadEvent::BodyFailed => true,
                _ => false,
            },
            DownloadPhase::Done => false,
        }
    }

    /// Takes one event and returns what to do next.
    pub fn step(&mut self, e: DownloadEvent) -> (a: DownloadAction)
        requires
            download_accepts(old(self)@, e),
        ensures
            download_step(old(self)@, e, final(self)@, a),
            e is BodyRead ==> (a matches DownloadAction::Reply(r) && (r.body matches Body::Attachment { disposition, .. }
                && disposition@ == "attachment; filename=\""@ + old(self)@.filename + "\""@)),
            e matches DownloadEvent::BodyRead(d) ==> (a matches DownloadAction::Reply(r) && (r.body matches Body::Attachment { data, .. }
                && data@ == d@)),
    {
        match e {
            DownloadEvent::FilenameFound(name) => {
                self.filename = name;
                self.phase = DownloadPhase::Fetching;
                DownloadAction::FetchObject { bucket: artifacts_bucket(), key: self.id.clone() }
            },
            DownloadEvent::LookupFailed => {
                self.phase = DownloadPhase::Done;
                DownloadAction::Reply(text_reply(500, "Internal Server Error"))
            },
            DownloadEvent::ObjectFound(ct) => {
                self.content_type = ct;
                self.phase = DownloadPhase::Reading;
                DownloadAction::ReadBody
            },
            DownloadEvent::ObjectMissing => {
                self.phase = DownloadPhase::Done;
                DownloadAction::Reply(text_reply(404, "Artifact not found"))
            },
            DownloadEvent::BodyRead(data) => {
                let content_type = match &self.content_type {
                    Some(t) => t.clone(),
                    None => owned("application/octet-stream"),
                };
                let disposition = join3("attachment; filename=\"", self.filename.as_str(), "\"");
                self.phase = DownloadPhase::Done;
                DownloadAction::Reply(Reply {
                    status: 200,
                    body: Body::Attachment { content_type, disposition, data },
                })
            },
            DownloadEvent::BodyFailed => {
                self.phase = DownloadPhase::Done;
                DownloadAction::Reply(text_reply(500, "Failed to read artifact body"))
            },
        }
    }
}

/// A download that finds the file name `name`, then the object with content
/// type `ct`, then reads `data`, sends exactly `data` as an attachment named
/// `name`, with type `ct` or `application/octet-stream` when the store gives
/// none; the object is asked for under the artifact's own identifier.
pub proof fn lemma_download_sends_recorded_name(
    s0: DownloadState,
    s1: DownloadState,
    s2: DownloadState,
    s3: DownloadState,
    name: String,
    ct: Option<String>,
    data: Vec<u8>,
    a1: DownloadAction,
    a2: DownloadAction,
    a3: DownloadAction,
)
    requires
        s0.phase == DownloadPhase::LookingUp,
        download_step(s0, DownloadEvent::FilenameFound(name), s1, a1),
        download_step(s1, DownloadEvent::ObjectFound(ct), s2, a2),
        download_step(s2, DownloadEvent::BodyRead(data), s3, a3),
    ensures
        a1 matches DownloadAction::FetchObject { key, .. } && key@ == s0.id,
        a3 matches DownloadAction::Reply(r) && is_attachment_reply(
            r,
            match ct {
                Some(t) => t@,
                None => default_content_type(),
            },
            attachment_disposition(name@),
            data@,
        ),
        s3.phase == DownloadPhase::Done,
{
}

/// Whether two actions do the same: the same kind, with equal texts and bytes.
pub open spec fn same_action(a: DownloadAction, b: DownloadAction) -> bool {
    match (a, b) {
        (DownloadAction::FetchFilename { id: x }, DownloadAction::FetchFilename { id: y }) => x@ == y@,
        (DownloadAction::FetchObject { bucket: b1, key: k1 }, DownloadAction::FetchObject { bucket: b2, key: k2 }) =>
            b1@ == b2@ && k1@ == k2@,
        (DownloadAction::ReadBody, DownloadAction::ReadBody) => true,
        (DownloadAction::Reply(r1), DownloadAction::Reply(r2)) => r1.status == r2.status && match (r1.body, r2.body) {
            (Body::Text(t1), Body::Text(t2)) => t1@ == t2@,
            (
                Body::Attachment { content_type: c1, disposition: d1, data: x1 },
                Body::Attachment { content_type: c2, disposition: d2, data: x2 },
            ) => c1@ == c2@ && d1@ == d2@ && x1@ == x2@,
            _ => false,
        },
        _ => false,
    }
}

/// A download step is determined by the state and the event alone: what the
/// database and the object store report about the file name and the contents.
/// Nothing else, such as the artifact's scan status, can change the reply.
pub proof fn lemma_download_determined(
    pre: DownloadState,
    e: DownloadEvent,
    post1: DownloadState,
    a1: DownloadAction,
    post2: DownloadState,
    a2: DownloadAction,
)
    requires
        download_accepts(pre, e),
        download_step(pre, e, post1, a1),
        download_step(pre, e, post2, a2),
    ensures
        post1 == post2,
        same_action(a1, a2),
{
}

/// The disposition offers the recorded file name whole, whatever its length:
/// it is the literal prefix `attachment; filename="`, then every character of
/// the name in order, then a closing quote.
pub proof fn lemma_disposition_keeps_name(name: Seq<char>)
    ensures
        attachment_disposition(name) == "attachment; filename=\""@ + name + "\""@,
        attachment_disposition(name).len() == name.len() + 23,
        attachment_disposition(name).subrange(22, 22 + name.len() as int) == name,
        attachment_disposition(name)[name.len() as int + 22] == '"',
{
    reveal_strlit("attachment; filename=\"");
    reveal_strlit("\"");
    let d = attachment_disposition(name);
    assert(d.subrange(22, 22 + name.len() as int) =~= name);
}

} // verus!

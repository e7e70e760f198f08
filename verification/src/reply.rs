//! HTTP replies of the service, and the replies of the listing and scan
//! endpoints.
use vstd::prelude::*;
use crate::metadata::ArtifactMetadata;
use crate::text::{owned, join3};

verus! {

/// The body of a reply.
#[derive(Debug, Clone, PartialEq, Eq)]
pub enum Body {
    /// Plain text.
    Text(String),
    /// A JSON array of artifact records.
    Artifacts(Vec<ArtifactMetadata>),
    /// An artifact's contents sent as a file attachment.
    Attachment { content_type: String, disposition: String, data: Vec<u8> },
}

/// A reply: HTTP status code and body.
#[derive(Debug, Clone, PartialEq, Eq)]
pub struct Reply {
    pub status: u16,
    pub body: Body,
}

/// Whether `r` has status `status` and the text body `text`.
pub open spec fn is_text_reply(r: Reply, status: u16, text: Seq<char>) -> bool {
    &&& r.status == status
    &&& r.body matches Body::Text(t) && t@ == text
}

/// A reply with a text body.
pub fn text_reply(status: u16, text: &str) -> (r: Reply)
    ensures
        is_text_reply(r, status, text@),
{
    Reply { status, body: Body::Text(owned(text)) }
}

/// The reply of the listing endpoint: the records fetched from the database
/// as JSON with status 200, or status 500 when the query failed.
pub fn list_reply(fetched: Option<Vec<ArtifactMetadata>>) -> (r: Reply)
    ensures
        match fetched {
            Some(list) => r.status == 200 && r.body == Body::Artifacts(list),
            None => is_text_reply(r, 500, "Failed to fetch artifacts"@),
        },
{
    match fetched {
        Some(list) => Reply { status: 200, body: Body::Artifacts(list) },
        None => text_reply(500, "Failed to fetch artifacts"),
    }
}

/// The text of a successful scan of artifact `id`.
pub open spec fn scanned_text(id: Seq<char>) -> Seq<char> {
    "Artifact "@ + id + " scanned and marked as clean"@
}

/// The reply of the scan endpoint for artifact `id`, given whether the
/// database accepted the status update.
pub fn scan_reply(id: &str, updated: bool) -> (r: Reply)
    ensures
        updated ==> is_text_reply(r, 200, scanned_text(id@)),
        !updated ==> is_text_reply(r, 500, "Failed to update scan status"@),
{
    if updated {
        Reply { status: 200, body: Body::Text(join3("Artifact ", id, " scanned and marked as clean")) }
    } else {
        text_reply(500, "Failed to update scan status")
    }
}

} // verus!

//! Decisions of the command-line client: which URL each command calls, how a
//! response is judged, and what the artifact listing shows.
use vstd::prelude::*;
use crate::text::{join2, join3, owned};

verus! {

/// The service address used when none is configured.
pub open spec fn default_api_base() -> Seq<char> {
    "http://localhost:8000/api"@
}

/// The fixed address of the artifact collection used by the delete, download
/// and scan commands.
pub open spec fn fixed_artifacts_base() -> Seq<char> {
    "http://localhost:8000/api/artifacts/"@
}

/// The service address: the configured one (`SAM_API_URL`), or the default.
pub fn api_base_url(configured: Option<String>) -> (url: String)
    ensures
        match configured {
            Some(v) => url@ == v@,
            None => url@ == default_api_base(),
        },
{
    match configured {
        Some(v) => v,
        None => owned("http://localhost:8000/api"),
    }
}

/// The URL that deletes artifact `id`.
pub fn delete_url(id: &str) -> (url: String)
    ensures
        url@ == fixed_artifacts_base() + id@,
{
    join2("http://localhost:8000/api/artifacts/", id)
}

/// The URL that downloads artifact `id`.
pub fn download_url(id: &str) -> (url: String)
    ensures
        url@ == fixed_artifacts_base() + id@ + "/download"@,
{
    join3("http://localhost:8000/api/artifacts/", id, "/download")
}

/// The URL that asks for a scan of artifact `id`.
pub fn scan_url(id: &str) -> (url: String)
    ensures
        url@ == fixed_artifacts_base() + id@ + "/scan"@,
{
    join3("http://localhost:8000/api/artifacts/", id, "/scan")
}

/// The URL that lists the artifacts, under the service address `base`.
pub fn list_url(base: &str) -> (url: String)
    ensures
        url@ == base@ + "/artifacts"@,
{
    join2(base, "/artifacts")
}

/// The URL that takes uploads, under the service address `base`.
pub fn upload_url(base: &str) -> (url: String)
    ensures
        url@ == base@ + "/artifacts/upload"@,
{
    join2(base, "/artifacts/upload")
}

/// Whether an HTTP status code is in the success class (2xx).
pub open spec fn spec_is_success(code: u16) -> bool {
    200 <= code <= 299
}

/// Whether `code` is a success status.
pub fn is_success_status(code: u16) -> (ok: bool)
    ensures
        ok == spec_is_success(code),
        ok <==> (200 <= code && code <= 299),
{
    200 <= code && code <= 299
}

/// How a request of the client ended.
#[derive(Debug, Clone, Copy, PartialEq, Eq)]
pub enum RequestOutcome {
    /// The service answered with a success status.
    Succeeded,
    /// The service answered with this other status.
    Rejected(u16),
    /// No answer was received.
    Unreachable,
}

/// Judges a response by its status code; `None` when the request failed.
pub fn request_outcome(status: Option<u16>) -> (o: RequestOutcome)
    ensures
        match status {
            Some(code) => if spec_is_success(code) {
                o == RequestOutcome::Succeeded
            } else {
                o == RequestOutcome::Rejected(code)
            },
            None => o == RequestOutcome::Unreachable,
        },
        status matches Some(code) ==> ((200 <= code && code <= 299) <==> o == RequestOutcome::Succeeded),
        status matches Some(code) ==> (code < 200 || code > 299) ==> o == RequestOutcome::Rejected(code),
{
    match status {
        Some(code) => if is_success_status(code) {
            RequestOutcome::Succeeded
        } else {
            RequestOutcome::Rejected(code)
        },
        None => RequestOutcome::Unreachable,
    }
}

/// One element of the listing the service sent: its `id` and `filename`
/// members, where they are strings.
#[derive(Debug, Clone, PartialEq, Eq)]
pub struct ListedArtifact {
    pub id: Option<String>,
    pub filename: Option<String>,
}

/// What the listing shows for an optional member: its text, or `fallback`.
pub open spec fn shown(member: Option<String>, fallback: Seq<char>) -> Seq<char> {
    match member {
        Some(s) => s@,
        None => fallback,
    }
}

/// The identifier and name shown for one listed artifact.
pub fn listing_row(a: &ListedArtifact) -> (row: (String, String))
    ensures
        row.0@ == shown(a.id, "<unknown>"@),
        row.1@ == shown(a.filename, "<no name>"@),
        a.id matches Some(s) ==> row.0@ == s@,
        a.id is None ==> row.0@ == "<unknown>"@,
        a.filename matches Some(f) ==> row.1@ == f@,
        a.filename is None ==> row.1@ == "<no name>"@,
{
    let id = match &a.id {
        Some(s) => s.clone(),
        None => owned("<unknown>"),
    };
    let name = match &a.filename {
        Some(s) => s.clone(),
        None => owned("<no name>"),
    };
    (id, name)
}

/// The rows of the listing, one per element and in order, when the service
/// sent an array; `None` when it sent something else.
pub fn listing(entries: Option<Vec<ListedArtifact>>) -> (rows: Option<Vec<(String, String)>>)
    ensures
        entries is None <==> rows is None,
        entries matches Some(es) ==> (rows matches Some(rs) && rs@.len() == es@.len()
            && forall|i: int| 0 <= i < es@.len() ==> {
                &&& (#[trigger] rs@[i]).0@ == shown(es@[i].id, "<unknown>"@)
                &&& rs@[i].1@ == shown(es@[i].filename, "<no name>"@)
            }),
        entries matches Some(es) ==> (rows matches Some(rs)
            && forall|i: int| 0 <= i < es@.len() ==> {
                &&& (es@[i].id matches Some(s) ==> (#[trigger] rs@[i]).0@ == s@)
                &&& (es@[i].filename matches Some(f) ==> rs@[i].1@ == f@)
            }),
{
    match entries {
        None => None,
        Some(es) => {
            let mut rows: Vec<(String, String)> = Vec::new();
            let n = es.len();
            let mut i: usize = 0;
            while i < n
                invariant
                    n == es@.len(),
                    i <= n,
                    rows@.len() == i,
                    forall|j: int| 0 <= j < i ==> {
                        &&& (#[trigger] rows@[j]).0@ == shown(es@[j].id, "<unknown>"@)
                        &&& rows@[j].1@ == shown(es@[j].filename, "<no name>"@)
                    },
                decreases n - i,
            {
                let row = listing_row(&es[i]);
                rows.push(row);
                i = i + 1;
            }
            Some(rows)
        },
    }
}

/// Success is exactly the 2xx class: every code from 200 to 299 succeeds,
/// and no code below 200 or above 299 does.
pub proof fn lemma_success_is_2xx(code: u16)
    ensures
        spec_is_success(code) <==> (200 <= code && code <= 299),
        code >= 300 ==> !spec_is_success(code),
        code < 200 ==> !spec_is_success(code),
{
}

/// A listed member that is present is shown as it is, whatever its length;
/// only a missing member is shown as the fallback.
pub proof fn lemma_shown_keeps_member(member: Option<String>, fallback: Seq<char>)
    ensures
        member matches Some(s) ==> shown(member, fallback) == s@,
        member matches Some(s) ==> shown(member, fallback).len() == s@.len(),
        member is None ==> shown(member, fallback) == fallback,
{
}

} // verus!

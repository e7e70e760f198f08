//! The metadata record kept for every stored artifact.
use vstd::prelude::*;
use crate::text::owned;

verus! {

/// The note recorded for artifacts uploaded through the service.
pub open spec fn upload_note() -> Seq<char> {
    "Uploaded via UI"@
}

/// Scan status of an artifact whose scan has not finished.
pub open spec fn status_in_progress() -> Seq<char> {
    "in-progress"@
}

/// Scan status of an artifact that was scanned and found clean.
pub open spec fn status_clean() -> Seq<char> {
    "clean"@
}

/// The object-store bucket that holds artifact contents.
pub open spec fn bucket_name() -> Seq<char> {
    "artifacts"@
}

/// The bucket that holds artifact contents.
pub fn artifacts_bucket() -> (res: String)
    ensures
        res@ == bucket_name(),
{
    owned("artifacts")
}

/// Metadata of one stored artifact, as kept in the database.
#[derive(Debug, Clone, PartialEq, Eq)]
pub struct ArtifactMetadata {
    pub id: String,
    pub original_filename: String,
    pub size_bytes: i64,
    pub sha256: String,
    pub upload_time: String,
    pub metadata: String,
    pub scan_status: String,
}

/// A change of the scan status of one artifact.
#[derive(Debug, Clone, PartialEq, Eq)]
pub struct StatusUpdate {
    pub id: String,
    pub scan_status: String,
}

/// Whether `m` is the record of a fresh upload with the given fields.
pub open spec fn is_upload_record(
    m: ArtifactMetadata,
    id: Seq<char>,
    filename: Seq<char>,
    size: u64,
    digest: Seq<char>,
    upload_time: Seq<char>,
) -> bool {
    &&& m.id@ == id
    &&& m.original_filename@ == filename
    &&& m.size_bytes == size as i64
    &&& m.sha256@ == digest
    &&& m.upload_time@ == upload_time
    &&& m.metadata@ == upload_note()
    &&& m.scan_status@ == status_in_progress()
}

impl ArtifactMetadata {
    /// The record of a freshly uploaded artifact: noted as uploaded through
    /// the UI, with its scan still in progress. The size is stored as a
    /// signed 64-bit number.
    pub fn for_upload(
        id: String,
        original_filename: String,
        size: u64,
        sha256: String,
        upload_time: String,
    ) -> (m: ArtifactMetadata)
        ensures
            is_upload_record(m, id@, original_filename@, size, sha256@, upload_time@),
    {
        ArtifactMetadata {
            id,
            original_filename,
            size_bytes: size as i64,
            sha256,
            upload_time,
            metadata: owned("Uploaded via UI"),
            scan_status: owned("in-progress"),
        }
    }
}

impl StatusUpdate {
    /// Marks artifact `id` as scanned and clean.
    pub fn mark_clean(id: &str) -> (u: StatusUpdate)
        ensures
            u.id@ == id@,
            u.scan_status@ == status_clean(),
    {
        StatusUpdate { id: owned(id), scan_status: owned("clean") }
    }
}

/// The scan statuses of the artifacts table, by identifier, after the change
/// `u`: the row with `u`'s identifier gets its status; other rows, and a table
/// without that row, are unchanged.
pub open spec fn apply_status_update(table: Map<Seq<char>, Seq<char>>, u: StatusUpdate) -> Map<Seq<char>, Seq<char>> {
    if table.dom().contains(u.id@) {
        table.insert(u.id@, u.scan_status@)
    } else {
        table
    }
}

/// Whether every status in `table` is `in-progress` or `clean`.
pub open spec fn statuses_known(table: Map<Seq<char>, Seq<char>>) -> bool {
    forall|k: Seq<char>| #[trigger] table.dom().contains(k) ==> table[k] == status_in_progress() || table[k] == status_clean()
}

/// The changes the library makes (`StatusUpdate::mark_clean`) only move a
/// status to `clean`: every status stays `in-progress` or `clean`, a clean
/// artifact stays clean, and no row appears or disappears.
pub proof fn lemma_scan_only_moves_to_clean(table: Map<Seq<char>, Seq<char>>, u: StatusUpdate)
    requires
        statuses_known(table),
        u.scan_status@ == status_clean(),
    ensures
        statuses_known(apply_status_update(table, u)),
        apply_status_update(table, u).dom() == table.dom(),
        forall|k: Seq<char>| #[trigger] table.dom().contains(k) && table[k] == status_clean()
            ==> apply_status_update(table, u)[k] == status_clean(),
{
    if table.dom().contains(u.id@) {
        assert(table.insert(u.id@, u.scan_status@).dom() =~= table.dom());
    }
}

/// A new record enters with its scan in progress: inserting it keeps every
/// status `in-progress` or `clean`.
pub proof fn lemma_new_record_in_progress(table: Map<Seq<char>, Seq<char>>, m: ArtifactMetadata)
    requires
        statuses_known(table),
        m.scan_status@ == status_in_progress(),
    ensures
        statuses_known(table.insert(m.id@, m.scan_status@)),
{
}

} // verus!

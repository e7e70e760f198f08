use secure_artifact_manager::digest::sha256_hex;
use secure_artifact_manager::download::{DownloadAction, DownloadEvent, DownloadPhase, DownloadSession};
use secure_artifact_manager::clock::{upload_time_now, utc_time_text};
use secure_artifact_manager::hex::to_hex_lower;
use secure_artifact_manager::ident::{artifact_id_from_bytes, new_artifact_id};
use secure_artifact_manager::metadata::{artifacts_bucket, ArtifactMetadata, StatusUpdate};
use secure_artifact_manager::reply::{list_reply, scan_reply, text_reply, Body, Reply};
use secure_artifact_manager::upload::{UploadAction, UploadEvent, UploadPhase, UploadSession};

const HELLO_SHA256: &str = "315f5bdb76d078c43b8ac0064e4a0164612b1fce77c869345bfc94c75894edd3";

fn text(status: u16, s: &str) -> Reply {
    Reply { status, body: Body::Text(s.to_string()) }
}

fn is_uuid_v4(s: &str) -> bool {
    let b = s.as_bytes();
    b.len() == 36
        && b.iter().enumerate().all(|(i, c)| {
            if i == 8 || i == 13 || i == 18 || i == 23 {
                *c == b'-'
            } else {
                c.is_ascii_digit() || (b'a'..=b'f').contains(c)
            }
        })
        && b[14] == b'4'
        && b"89ab".contains(&b[19])
}

fn store(session: &mut UploadSession, events: Vec<UploadEvent>) -> UploadAction {
    let mut last = UploadAction::ReadPayload;
    for e in events {
        assert!(session.accepts(&e));
        last = session.step(e);
    }
    last
}

#[test]
fn list_artifacts_empty() {
    let r = list_reply(Some(vec![]));
    assert_eq!(r.status, 200);
    match r.body {
        Body::Artifacts(list) => assert!(list.is_empty()),
        other => panic!("unexpected body {:?}", other),
    }
}

#[test]
fn list_artifacts_with_meta() {
    let meta = ArtifactMetadata {
        id: "test-id".into(),
        original_filename: "file.txt".into(),
        size_bytes: 123,
        sha256: "abc".into(),
        upload_time: "2025-01-01T00:00:00Z".into(),
        metadata: "meta".into(),
        scan_status: "clean".into(),
    };
    let r = list_reply(Some(vec![meta.clone()]));
    assert_eq!(r.status, 200);
    match r.body {
        Body::Artifacts(list) => {
            assert_eq!(list.len(), 1);
            assert_eq!(list[0], meta);
        }
        other => panic!("unexpected body {:?}", other),
    }
}

#[test]
fn list_reply_when_query_fails() {
    assert_eq!(list_reply(None), text(500, "Failed to fetch artifacts"));
}

#[test]
fn upload_and_download_artifact() {
    let mut up = UploadSession::start().expect("random bytes");
    let id = up.id().to_string();
    assert!(!id.is_empty());
    assert!(is_uuid_v4(&id));

    let a = store(
        &mut up,
        vec![
            UploadEvent::FieldOpened(Some("hello.txt".to_string())),
            UploadEvent::Chunk(b"Hello, ".to_vec()),
            UploadEvent::Chunk(b"world!".to_vec()),
            UploadEvent::PayloadEnd,
        ],
    );
    match a {
        UploadAction::StoreObject { bucket, key, body } => {
            assert_eq!(bucket, "artifacts");
            assert_eq!(key, id);
            assert_eq!(body, b"Hello, world!".to_vec());
        }
        other => panic!("unexpected action {:?}", other),
    }
    assert_eq!(up.total_bytes(), "Hello, world!".len() as u64);

    assert!(matches!(up.step(UploadEvent::Stored(true)), UploadAction::ReadClock));
    assert!(!up.accepts(&UploadEvent::Recorded(true)));
    let now = upload_time_now();
    assert!(now.is_some());
    let meta = match up.step(UploadEvent::ClockRead(now.clone())) {
        UploadAction::InsertMetadata(m) => m,
        other => panic!("unexpected action {:?}", other),
    };
    assert_eq!(meta.id, id);
    assert_eq!(meta.original_filename, "hello.txt");
    assert_eq!(meta.size_bytes, "Hello, world!".len() as i64);
    assert_eq!(meta.sha256, HELLO_SHA256);
    assert_eq!(Some(meta.upload_time.clone()), now);
    assert!(meta.upload_time.ends_with("+00:00"));
    assert_eq!(meta.metadata, "Uploaded via UI");
    assert_eq!(meta.scan_status, "in-progress");

    match up.step(UploadEvent::Recorded(true)) {
        UploadAction::UpdateStatus(u) => {
            assert_eq!(u, StatusUpdate { id: id.clone(), scan_status: "clean".to_string() })
        }
        other => panic!("unexpected action {:?}", other),
    }
    match up.step(UploadEvent::Scanned(true)) {
        UploadAction::Reply(r) => assert_eq!(r, text(200, &id)),
        other => panic!("unexpected action {:?}", other),
    }
    assert_eq!(up.phase(), UploadPhase::Done);
    assert!(!up.accepts(&UploadEvent::Scanned(true)));

    let (mut down, first) = DownloadSession::start(id.clone());
    match first {
        DownloadAction::FetchFilename { id: asked } => assert_eq!(asked, id),
        other => panic!("unexpected action {:?}", other),
    }
    match down.step(DownloadEvent::FilenameFound(meta.original_filename.clone())) {
        DownloadAction::FetchObject { bucket, key } => {
            assert_eq!(bucket, "artifacts");
            assert_eq!(key, id);
        }
        other => panic!("unexpected action {:?}", other),
    }
    assert!(matches!(down.step(DownloadEvent::ObjectFound(None)), DownloadAction::ReadBody));
    match down.step(DownloadEvent::BodyRead(b"Hello, world!".to_vec())) {
        DownloadAction::Reply(r) => assert_eq!(
            r,
            Reply {
                status: 200,
                body: Body::Attachment {
                    content_type: "application/octet-stream".to_string(),
                    disposition: "attachment; filename=\"hello.txt\"".to_string(),
                    data: b"Hello, world!".to_vec(),
                },
            }
        ),
        other => panic!("unexpected action {:?}", other),
    }
    assert_eq!(down.phase(), DownloadPhase::Done);
}

#[test]
fn upload_without_file_name_is_unknown() {
    let mut up = UploadSession::with_id("fixed-id".to_string());
    store(
        &mut up,
        vec![
            UploadEvent::FieldOpened(None),
            UploadEvent::FieldFailed,
            UploadEvent::PayloadEnd,
        ],
    );
    up.step(UploadEvent::Stored(true));
    match up.step(UploadEvent::ClockRead(Some("2025-01-01T00:00:00+00:00".to_string()))) {
        UploadAction::InsertMetadata(m) => {
            assert_eq!(m.id, "fixed-id");
            assert_eq!(m.upload_time, "2025-01-01T00:00:00+00:00");
            assert_eq!(m.original_filename, "unknown");
            assert_eq!(m.size_bytes, 0);
            assert_eq!(m.sha256, "e3b0c44298fc1c149afbf4c8996fb92427ae41e4649b934ca495991b7852b855");
        }
        other => panic!("unexpected action {:?}", other),
    }
}

#[test]
fn upload_keeps_last_file_name() {
    let mut up = UploadSession::with_id("id-2".to_string());
    store(
        &mut up,
        vec![
            UploadEvent::FieldOpened(Some("first.bin".to_string())),
            UploadEvent::Chunk(vec![1, 2, 3]),
            UploadEvent::FieldOpened(Some("second.bin".to_string())),
            UploadEvent::Chunk(vec![4]),
            UploadEvent::FieldOpened(None),
            UploadEvent::PayloadEnd,
        ],
    );
    up.step(UploadEvent::Stored(true));
    match up.step(UploadEvent::ClockRead(Some("2025-01-01T00:00:00+00:00".to_string()))) {
        UploadAction::InsertMetadata(m) => {
            assert_eq!(m.original_filename, "second.bin");
            assert_eq!(m.size_bytes, 4);
            assert_eq!(m.sha256, sha256_hex(&[1, 2, 3, 4]));
        }
        other => panic!("unexpected action {:?}", other),
    }
}

#[test]
fn upload_store_failure() {
    let mut up = UploadSession::with_id("id-3".to_string());
    assert!(!up.accepts(&UploadEvent::Stored(true)));
    store(&mut up, vec![UploadEvent::PayloadEnd]);
    assert!(!up.accepts(&UploadEvent::Chunk(vec![1])));
    match up.step(UploadEvent::Stored(false)) {
        UploadAction::Reply(r) => assert_eq!(r, text(500, "Failed to upload artifact")),
        other => panic!("unexpected action {:?}", other),
    }
    assert_eq!(up.phase(), UploadPhase::Done);
}

#[test]
fn upload_record_failure() {
    let mut up = UploadSession::with_id("id-4".to_string());
    store(
        &mut up,
        vec![
            UploadEvent::PayloadEnd,
            UploadEvent::Stored(true),
            UploadEvent::ClockRead(Some("t".to_string())),
        ],
    );
    match up.step(UploadEvent::Recorded(false)) {
        UploadAction::Reply(r) => assert_eq!(r, text(500, "Failed to save artifact metadata")),
        other => panic!("unexpected action {:?}", other),
    }
}

#[test]
fn upload_scan_failure_still_answers_id() {
    let mut up = UploadSession::with_id("id-5".to_string());
    store(
        &mut up,
        vec![
            UploadEvent::PayloadEnd,
            UploadEvent::Stored(true),
            UploadEvent::ClockRead(Some("t".to_string())),
            UploadEvent::Recorded(true),
        ],
    );
    match up.step(UploadEvent::Scanned(false)) {
        UploadAction::Reply(r) => assert_eq!(r, text(200, "id-5")),
        other => panic!("unexpected action {:?}", other),
    }
}

#[test]
fn upload_clock_failure() {
    let mut up = UploadSession::with_id("id-6".to_string());
    store(&mut up, vec![UploadEvent::PayloadEnd, UploadEvent::Stored(true)]);
    match up.step(UploadEvent::ClockRead(None)) {
        UploadAction::Reply(r) => assert_eq!(r, text(500, "Failed to read the system clock")),
        other => panic!("unexpected action {:?}", other),
    }
    assert_eq!(up.phase(), UploadPhase::Done);
}

#[test]
fn fresh_ids_differ() {
    let a = UploadSession::start().expect("random bytes");
    let b = UploadSession::start().expect("random bytes");
    assert_ne!(a.id(), b.id());
    assert!(is_uuid_v4(b.id()));
}

#[test]
fn download_lookup_failure() {
    let (mut d, _) = DownloadSession::start("x".to_string());
    assert!(!d.accepts(&DownloadEvent::BodyFailed));
    match d.step(DownloadEvent::LookupFailed) {
        DownloadAction::Reply(r) => assert_eq!(r, text(500, "Internal Server Error")),
        other => panic!("unexpected action {:?}", other),
    }
}

#[test]
fn download_object_missing() {
    let (mut d, _) = DownloadSession::start("x".to_string());
    d.step(DownloadEvent::FilenameFound("a.txt".to_string()));
    match d.step(DownloadEvent::ObjectMissing) {
        DownloadAction::Reply(r) => assert_eq!(r, text(404, "Artifact not found")),
        other => panic!("unexpected action {:?}", other),
    }
}

#[test]
fn download_body_failure() {
    let (mut d, _) = DownloadSession::start("x".to_string());
    d.step(DownloadEvent::FilenameFound("a.txt".to_string()));
    d.step(DownloadEvent::ObjectFound(Some("text/plain".to_string())));
    match d.step(DownloadEvent::BodyFailed) {
        DownloadAction::Reply(r) => assert_eq!(r, text(500, "Failed to read artifact body")),
        other => panic!("unexpected action {:?}", other),
    }
}

#[test]
fn download_keeps_content_type() {
    let (mut d, _) = DownloadSession::start("x".to_string());
    d.step(DownloadEvent::FilenameFound("report.pdf".to_string()));
    d.step(DownloadEvent::ObjectFound(Some("application/pdf".to_string())));
    match d.step(DownloadEvent::BodyRead(vec![9, 8])) {
        DownloadAction::Reply(r) => {
            assert_eq!(r.status, 200);
            assert_eq!(
                r.body,
                Body::Attachment {
                    content_type: "application/pdf".to_string(),
                    disposition: "attachment; filename=\"report.pdf\"".to_string(),
                    data: vec![9, 8],
                }
            );
        }
        other => panic!("unexpected action {:?}", other),
    }
}

#[test]
fn scan_replies() {
    assert_eq!(scan_reply("abc-1", true), text(200, "Artifact abc-1 scanned and marked as clean"));
    assert_eq!(scan_reply("abc-1", false), text(500, "Failed to update scan status"));
    assert_eq!(StatusUpdate::mark_clean("abc-1").scan_status, "clean");
}

#[test]
fn text_reply_and_bucket() {
    assert_eq!(text_reply(418, "tea"), text(418, "tea"));
    assert_eq!(artifacts_bucket(), "artifacts");
}

#[test]
fn for_upload_record() {
    let m = ArtifactMetadata::for_upload(
        "i".to_string(),
        "f".to_string(),
        7,
        "d".to_string(),
        "t".to_string(),
    );
    assert_eq!(
        m,
        ArtifactMetadata {
            id: "i".into(),
            original_filename: "f".into(),
            size_bytes: 7,
            sha256: "d".into(),
            upload_time: "t".into(),
            metadata: "Uploaded via UI".into(),
            scan_status: "in-progress".into(),
        }
    );
}

#[test]
fn hex_rendering() {
    assert_eq!(to_hex_lower(&[]), "");
    assert_eq!(to_hex_lower(&[0x0a, 0xff, 0x00, 0x7b]), "0aff007b");
    assert_eq!(to_hex_lower(&[0x01, 0x23]), "0123");
    assert_ne!(to_hex_lower(&[0x01, 0x23]), to_hex_lower(&[0x12, 0x03]));
    assert_eq!(to_hex_lower(&[0xde, 0xad, 0xbe, 0xef]).len(), 8);
    assert_eq!(sha256_hex(b"Hello, world!"), HELLO_SHA256);
    assert_eq!(sha256_hex(b"abc"), "ba7816bf8f01cfea414140de5dae2223b00361a396177a9cb410ff61f20015ad");
}

#[test]
fn timestamps_in_rfc3339() {
    assert_eq!(utc_time_text(0, 0).as_deref(), Some("1970-01-01T00:00:00+00:00"));
    assert_eq!(utc_time_text(1735689600, 0).as_deref(), Some("2025-01-01T00:00:00+00:00"));
    assert_eq!(utc_time_text(1735689600, 500_000_000).as_deref(), Some("2025-01-01T00:00:00.500+00:00"));
    assert_eq!(utc_time_text(u64::MAX, 0), None);
    assert_eq!(utc_time_text(1u64 << 62, 0), None);
    let now = upload_time_now().expect("the clock reads after the epoch");
    assert!(now.ends_with("+00:00"));
    assert!(now.starts_with("20"));
}

#[test]
fn identifiers_from_bytes() {
    assert_eq!(artifact_id_from_bytes([0u8; 16]), "00000000-0000-4000-8000-000000000000");
    assert_eq!(artifact_id_from_bytes([0xffu8; 16]), "ffffffff-ffff-4fff-bfff-ffffffffffff");
    let bytes = [
        0x12, 0x34, 0x56, 0x78, 0x9a, 0xbc, 0xde, 0xf0, 0x12, 0x34, 0x56, 0x78, 0x9a, 0xbc, 0xde, 0xf0,
    ];
    assert_eq!(artifact_id_from_bytes(bytes), "12345678-9abc-4ef0-9234-56789abcdef0");
    let id = new_artifact_id().expect("random bytes");
    assert!(is_uuid_v4(&id));
}

use gem_rs::errors::GemError;
use gem_rs::files::delete_precheck;
use gem_rs::files::file_extension;
use gem_rs::files::get_mime_type;
use gem_rs::files::parse_file_list_page;
use gem_rs::files::parse_file_status;
use gem_rs::files::parse_upload_response;
use gem_rs::files::poll_decision;
use gem_rs::files::reserve_request_body;
use gem_rs::files::sha256_hex;
use gem_rs::files::File;
use gem_rs::files::FileCache;
use gem_rs::files::PollAction;
use gem_rs::files::Status;

fn sample_file(state: &str, expiration: &str) -> File {
    File {
        name: "files/abc".to_string(),
        uri: "https://example.invalid/files/abc".to_string(),
        display_name: "abc.png".to_string(),
        mime_type: "image/png".to_string(),
        size_bytes: "123".to_string(),
        create_time: "2024-01-01T00:00:00Z".to_string(),
        update_time: "2024-01-01T00:00:00Z".to_string(),
        expiration_time: expiration.to_string(),
        sha256_hash: "deadbeef".to_string(),
        state: state.to_string(),
        error: None,
        video_metadata: None,
        api_key: "SECRET-REDACTED".to_string(),
    }
}

fn file_record_json() -> &'static str {
    r#"{
        "name": "files/abc",
        "uri": "https://example.invalid/files/abc",
        "displayName": "abc.png",
        "mimeType": "image/png",
        "sizeBytes": "123",
        "createTime": "2024-01-01T00:00:00Z",
        "updateTime": "2024-01-01T00:00:00Z",
        "expirationTime": "2024-01-03T00:00:00Z",
        "sha256Hash": "deadbeef",
        "state": "ACTIVE"
    }"#
}

#[test]
fn sha256_digest_is_the_known_hex() {
    assert_eq!(
        sha256_hex(&b"hello".to_vec()),
        "2cf24dba5fb0a30e26e83b2ac5b9e29e1b161e5c1fa7425e73043362938b9824"
    );
}

#[test]
fn reserve_body_is_exact() {
    assert_eq!(
        reserve_request_body("photo.png"),
        "{\"file\":{\"display_name\":\"photo.png\"}}"
    );
}

#[test]
fn upload_response_parses_the_file_member() {
    let body = format!("{{\"file\":{}}}", file_record_json());
    let file = parse_upload_response(&body).unwrap();
    assert_eq!(file.name, "files/abc");
    assert_eq!(file.mime_type, "image/png");
    assert_eq!(file.state, "ACTIVE");
    assert_eq!(file.api_key, "");

    assert!(matches!(
        parse_upload_response("{\"no_file\":1}"),
        Err(GemError::FileError(_))
    ));
}

#[test]
fn file_status_parses_a_record() {
    let file = parse_file_status(file_record_json()).unwrap();
    assert_eq!(file.sha256_hash, "deadbeef");
    assert!(matches!(
        parse_file_status("{\"name\":\"only\"}"),
        Err(GemError::FileError(_))
    ));
}

#[test]
fn file_list_page_parses_files_and_token() {
    let body = format!(
        "{{\"files\":[{}],\"nextPageToken\":\"tok\"}}",
        file_record_json()
    );
    let (files, token) = parse_file_list_page(&body).unwrap();
    assert_eq!(files.unwrap().len(), 1);
    assert_eq!(token.as_deref(), Some("tok"));

    let (files, token) = parse_file_list_page("{}").unwrap();
    assert!(files.is_none());
    assert!(token.is_none());
}

#[test]
fn poll_decision_follows_the_state() {
    assert!(matches!(poll_decision(&sample_file("ACTIVE", "x"), 0), PollAction::Done));
    match poll_decision(&sample_file("FAILED", "x"), 0) {
        PollAction::Fail(m) => assert_eq!(m, "File processing failed"),
        other => panic!("unexpected action: {:?}", other),
    }
    let mut failed = sample_file("FAILED", "x");
    failed.error = Some(Status { code: 13, message: "broke".to_string() });
    match poll_decision(&failed, 0) {
        PollAction::Fail(m) => assert_eq!(m, "broke"),
        other => panic!("unexpected action: {:?}", other),
    }
    match poll_decision(&sample_file("LOST", "x"), 0) {
        PollAction::Fail(m) => assert_eq!(m, "File processing unknown state"),
        other => panic!("unexpected action: {:?}", other),
    }
    assert!(matches!(poll_decision(&sample_file("PROCESSING", "x"), 0), PollAction::Retry));
    match poll_decision(&sample_file("PROCESSING", "x"), 3) {
        PollAction::Fail(m) => assert_eq!(m, "File processing timeout"),
        other => panic!("unexpected action: {:?}", other),
    }
}

#[test]
fn delete_needs_an_api_key() {
    let mut file = sample_file("ACTIVE", "x");
    assert!(delete_precheck(&file).is_ok());
    file.api_key = String::new();
    assert!(matches!(delete_precheck(&file), Err(GemError::FileError(_))));
}

#[test]
fn cache_serves_fresh_entries_and_evicts_stale_ones() {
    let mut cache = FileCache::new();
    assert!(!cache.check_file("deadbeef"));

    let fresh = sample_file("ACTIVE", "2024-01-03T00:00:00Z");
    cache.insert("deadbeef".to_string(), fresh);
    assert!(cache.check_file("deadbeef"));

    // Before the expiration the handle is served and kept.
    let (found, stale) = cache.get_file("deadbeef", "2024-01-02T00:00:00Z");
    let fd = found.unwrap();
    assert_eq!(fd.mime_type, "image/png");
    assert_eq!(fd.file_uri, "https://example.invalid/files/abc");
    assert!(stale.is_none());
    assert!(cache.check_file("deadbeef"));

    // Past the expiration the entry leaves and is handed back.
    let (found, stale) = cache.get_file("deadbeef", "2024-01-04T00:00:00Z");
    assert!(found.is_none());
    assert_eq!(stale.unwrap().name, "files/abc");
    assert!(!cache.check_file("deadbeef"));

    // An unknown hash changes nothing.
    let (found, stale) = cache.get_file("deadbeef", "2024-01-04T00:00:00Z");
    assert!(found.is_none());
    assert!(stale.is_none());
}

#[test]
fn cache_insert_replaces_and_remove_takes_out() {
    let mut cache = FileCache::new();
    cache.insert("k1".to_string(), sample_file("ACTIVE", "a"));
    let mut second = sample_file("ACTIVE", "b");
    second.display_name = "second.png".to_string();
    cache.insert("k1".to_string(), second);

    let taken = cache.remove("k1").unwrap();
    assert_eq!(taken.display_name, "second.png");
    assert!(cache.remove("k1").is_none());
}

#[test]
fn cache_take_all_empties_in_order() {
    let mut cache = FileCache::new();
    cache.insert("k1".to_string(), sample_file("ACTIVE", "a"));
    let mut other = sample_file("ACTIVE", "b");
    other.display_name = "other.png".to_string();
    cache.insert("k2".to_string(), other);
    let all = cache.take_all();
    assert_eq!(all.len(), 2);
    assert_eq!(all[0].display_name, "abc.png");
    assert_eq!(all[1].display_name, "other.png");
    assert!(!cache.check_file("k1"));
    assert!(!cache.check_file("k2"));
}

#[test]
fn cache_merges_fetched_records_under_their_digests() {
    let mut cache = FileCache::new();
    let mut fetched = sample_file("ACTIVE", "a");
    fetched.api_key = String::new();
    cache.insert_files(vec![fetched], "SECRET-REDACTED");
    assert!(cache.check_file("deadbeef"));
    let merged = cache.remove("deadbeef").unwrap();
    assert_eq!(merged.api_key, "SECRET-REDACTED");
}

#[test]
fn extensions_and_mime_types() {
    assert_eq!(file_extension("photo.jpeg").as_deref(), Some("jpeg"));
    assert_eq!(file_extension("archive.tar.gz").as_deref(), Some("gz"));
    assert_eq!(file_extension("noext"), None);
    assert_eq!(get_mime_type("photo.jpg").as_deref(), Some("image/jpeg"));
    assert_eq!(get_mime_type("song.mp3").as_deref(), Some("audio/mpeg"));
    assert_eq!(get_mime_type("clip.mov").as_deref(), Some("video/quicktime"));
    assert_eq!(get_mime_type("unknown.zzz"), None);
    assert_eq!(get_mime_type("nodots"), None);
}

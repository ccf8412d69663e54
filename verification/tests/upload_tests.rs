use aibot_rust_sdk::upload::{
    build_upload_chunk_body, build_upload_finish_body, build_upload_init_body, chunk_bounds, chunk_failure,
    chunk_retry_after, finish_upload_result, finish_upload_result_at, plan_upload, require_upload_id,
    upload_failure, ChunkProgress, UPLOAD_CHUNK_SIZE,
};
use aibot_rust_sdk::{AiBotError, UploadMediaOptions};
use base64::engine::general_purpose::STANDARD;
use base64::Engine;

#[test]
fn plan_rejects_empty() {
    assert_eq!(plan_upload(0), Err(AiBotError::UploadFailed("File buffer is empty".to_string())));
}

#[test]
fn plan_chunk_counts_and_concurrency() {
    let p = plan_upload(1).unwrap();
    assert_eq!((p.total_chunks, p.max_concurrency), (1, 1));
    let p = plan_upload(UPLOAD_CHUNK_SIZE * 4).unwrap();
    assert_eq!((p.total_chunks, p.max_concurrency), (4, 4));
    let p = plan_upload(UPLOAD_CHUNK_SIZE * 4 + 1).unwrap();
    assert_eq!((p.total_chunks, p.max_concurrency), (5, 3));
    let p = plan_upload(UPLOAD_CHUNK_SIZE * 10).unwrap();
    assert_eq!((p.total_chunks, p.max_concurrency), (10, 3));
    let p = plan_upload(UPLOAD_CHUNK_SIZE * 10 + 7).unwrap();
    assert_eq!((p.total_chunks, p.max_concurrency), (11, 2));
    let p = plan_upload(UPLOAD_CHUNK_SIZE * 100).unwrap();
    assert_eq!(p.total_chunks, 100);
}

#[test]
fn plan_rejects_too_many_chunks() {
    assert_eq!(
        plan_upload(UPLOAD_CHUNK_SIZE * 100 + 1),
        Err(AiBotError::UploadFailed(
            "File too large: 101 chunks exceeds maximum of 100 chunks (max ~50MB)".to_string()
        ))
    );
}

#[test]
fn chunks_cover_file() {
    let total = UPLOAD_CHUNK_SIZE * 2 + 10;
    let p = plan_upload(total).unwrap();
    assert_eq!(chunk_bounds(&p, 0), (0, UPLOAD_CHUNK_SIZE));
    assert_eq!(chunk_bounds(&p, 1), (UPLOAD_CHUNK_SIZE, 2 * UPLOAD_CHUNK_SIZE));
    assert_eq!(chunk_bounds(&p, 2), (2 * UPLOAD_CHUNK_SIZE, total));
}

#[test]
fn chunk_retry_schedule() {
    assert_eq!(chunk_retry_after(0), Some(500));
    assert_eq!(chunk_retry_after(1), Some(1000));
    assert_eq!(chunk_retry_after(2), None);
}

#[test]
fn init_body_has_md5() {
    let opts = UploadMediaOptions { type_: "file".to_string(), filename: "h.txt".to_string() };
    let p = plan_upload(5).unwrap();
    let b = build_upload_init_body(&opts, b"hello", &p);
    assert_eq!(b.md5, Some("5d41402abc4b2a76b9719d911017c592".to_string()));
    assert_eq!(b.total_size, 5);
    assert_eq!(b.total_chunks, 1);
    assert_eq!(b.type_, "file");
    assert_eq!(b.filename, "h.txt");
}

#[test]
fn chunk_body_is_base64_of_chunk() {
    let data: Vec<u8> = (0..(UPLOAD_CHUNK_SIZE + 3)).map(|i| (i % 251) as u8).collect();
    let p = plan_upload(data.len()).unwrap();
    let b = build_upload_chunk_body("up1", &data, &p, 1);
    assert_eq!(b.upload_id, "up1");
    assert_eq!(b.chunk_index, 1);
    assert_eq!(b.base64_data, STANDARD.encode(&data[UPLOAD_CHUNK_SIZE..]));
    let b0 = build_upload_chunk_body("up1", &data, &p, 0);
    assert_eq!(b0.base64_data, STANDARD.encode(&data[..UPLOAD_CHUNK_SIZE]));
    assert_eq!(build_upload_finish_body("up1").upload_id, "up1");
}

#[test]
fn upload_errors() {
    assert_eq!(require_upload_id(Some("u".to_string())), Ok("u".to_string()));
    assert_eq!(
        require_upload_id(None),
        Err(AiBotError::UploadFailed("Upload init failed: no upload_id returned".to_string()))
    );
    assert_eq!(chunk_failure(None), AiBotError::UploadFailed("Unknown chunk error".to_string()));
    assert_eq!(chunk_failure(Some(AiBotError::WebSocketNotConnected)), AiBotError::WebSocketNotConnected);
    let errs = vec![AiBotError::WebSocketNotConnected, AiBotError::Internal("x".to_string())];
    assert_eq!(
        upload_failure(&errs),
        AiBotError::UploadFailed(
            "Upload failed: 2 chunk(s) failed. First error: WebSocket not connected".to_string()
        )
    );
}

#[test]
fn finish_results() {
    let r = finish_upload_result_at(Some("m1".to_string()), None, None, "2024-01-01T00:00:00+00:00").unwrap();
    assert_eq!(r.media_id, "m1");
    assert_eq!(r.type_, "");
    assert_eq!(r.created_at, "2024-01-01T00:00:00+00:00");
    let r = finish_upload_result(Some("m2".to_string()), Some("image".to_string()), Some("t".to_string())).unwrap();
    assert_eq!((r.media_id.as_str(), r.type_.as_str(), r.created_at.as_str()), ("m2", "image", "t"));
    assert_eq!(
        finish_upload_result(None, None, None),
        Err(AiBotError::UploadFailed("Upload finish failed: no media_id returned".to_string()))
    );
    let r = finish_upload_result(Some("m3".to_string()), None, None).unwrap();
    assert!(created_at_is_utc_rfc3339(&r.created_at), "{}", r.created_at);
}

/// `YYYY-MM-DDTHH:MM:SS[.fff|.ffffff|.fffffffff]+00:00`, for a four-digit year.
fn created_at_is_utc_rfc3339(s: &str) -> bool {
    let b = s.as_bytes();
    if b.len() < 25 || !s.ends_with("+00:00") {
        return false;
    }
    let digits = |r: std::ops::Range<usize>| b[r].iter().all(|c| c.is_ascii_digit());
    let head = digits(0..4) && b[4] == b'-' && digits(5..7) && b[7] == b'-' && digits(8..10) && b[10] == b'T'
        && digits(11..13) && b[13] == b':' && digits(14..16) && b[16] == b':' && digits(17..19);
    let frac = &b[19..b.len() - 6];
    let frac_ok = frac.is_empty()
        || ([4usize, 7, 10].contains(&frac.len()) && frac[0] == b'.' && frac[1..].iter().all(|c| c.is_ascii_digit()));
    head && frac_ok
}

#[test]
fn chunks_decode_back_to_the_file() {
    let total = UPLOAD_CHUNK_SIZE * 2 + 7;
    let file: Vec<u8> = (0..total).map(|i| (i * 31 % 251) as u8).collect();
    let p = plan_upload(total).unwrap();
    let mut joined = Vec::new();
    for i in 0..p.total_chunks {
        let b = build_upload_chunk_body("u", &file, &p, i);
        joined.extend(STANDARD.decode(b.base64_data.as_bytes()).unwrap());
    }
    assert_eq!(joined, file);
}

#[test]
fn chunk_progress_outcomes() {
    let mut all_ok = ChunkProgress::new(3);
    all_ok.record(2, Ok(()));
    all_ok.record(0, Ok(()));
    assert!(!all_ok.is_settled(1));
    all_ok.record(1, Ok(()));
    assert_eq!(all_ok.outcome(), Ok(()));

    let mut some_failed = ChunkProgress::new(3);
    some_failed.record(1, Err(AiBotError::WebSocketSendFailed("t1".to_string())));
    some_failed.record(0, Ok(()));
    some_failed.record(2, Err(AiBotError::WebSocketNotConnected));
    assert_eq!(
        some_failed.outcome(),
        Err(AiBotError::UploadFailed("Upload failed: 2 chunk(s) failed. First error: WebSocket send failed: t1".to_string()))
    );

    let mut single = ChunkProgress::new(1);
    single.record(0, Err(AiBotError::HttpError("t".to_string())));
    assert_eq!(single.outcome(), Err(AiBotError::HttpError("t".to_string())));
}

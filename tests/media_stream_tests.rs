use localtube::controllers::media::{
    content_type_for, is_safe_media_path, parse_range, plan_stream, RangeOutcome,
};

const BODY: &[u8] = b"0123456789";

fn body_of(plan_start: u64, plan_length: u64) -> Vec<u8> {
    BODY[plan_start as usize..(plan_start + plan_length) as usize].to_vec()
}

#[test]
fn stream_returns_full_body() {
    let plan = plan_stream(None, BODY.len() as u64);
    assert_eq!(plan.status, 200);
    assert_eq!(plan.length, 10);
    assert_eq!(plan.content_range, None);
    assert_eq!(body_of(plan.start, plan.length), b"0123456789".to_vec());
}

#[test]
fn stream_honors_single_range_request() {
    let plan = plan_stream(Some("bytes=2-5"), BODY.len() as u64);
    assert_eq!(plan.status, 206);
    assert_eq!(plan.content_range.as_deref(), Some("bytes 2-5/10"));
    assert_eq!(plan.length, 4);
    assert_eq!(body_of(plan.start, plan.length), b"2345".to_vec());
}

#[test]
fn stream_rejects_invalid_range_request() {
    let plan = plan_stream(Some("bytes=999-1000"), BODY.len() as u64);
    assert_eq!(plan.status, 416);
    assert_eq!(plan.content_range.as_deref(), Some("bytes */10"));
    assert_eq!(plan.length, 0);
}

#[test]
fn stream_ignores_unsupported_range_unit() {
    let plan = plan_stream(Some("items=0-3"), BODY.len() as u64);
    assert_eq!(plan.status, 200);
    assert_eq!(plan.length, 10);
}

#[test]
fn open_ended_and_suffix_ranges() {
    assert_eq!(parse_range("bytes=7-", 10), RangeOutcome::Partial { start: 7, end: 9 });
    assert_eq!(parse_range("bytes=-3", 10), RangeOutcome::Partial { start: 7, end: 9 });
    assert_eq!(parse_range("bytes=-30", 10), RangeOutcome::Partial { start: 0, end: 9 });
    assert_eq!(parse_range("bytes=-0", 10), RangeOutcome::Unsatisfiable);
    assert_eq!(parse_range("bytes=10-", 10), RangeOutcome::Unsatisfiable);
}

#[test]
fn end_is_clamped_and_reversed_ranges_refused() {
    assert_eq!(parse_range("bytes=8-100", 10), RangeOutcome::Partial { start: 8, end: 9 });
    assert_eq!(parse_range("bytes=5-4", 10), RangeOutcome::Unsatisfiable);
    assert_eq!(parse_range("bytes=0-0", 10), RangeOutcome::Partial { start: 0, end: 0 });
}

#[test]
fn multi_range_and_malformed_headers_get_the_whole_file() {
    assert_eq!(parse_range("bytes=0-1,4-5", 10), RangeOutcome::Full);
    assert_eq!(parse_range("bytes=a-b", 10), RangeOutcome::Full);
    assert_eq!(parse_range("bytes=3", 10), RangeOutcome::Full);
    assert_eq!(parse_range("bytes=-", 10), RangeOutcome::Full);
    assert_eq!(parse_range("byte=0-1", 10), RangeOutcome::Full);
}

#[test]
fn empty_file_refuses_every_byte_range() {
    assert_eq!(parse_range("bytes=0-0", 0), RangeOutcome::Unsatisfiable);
    assert_eq!(parse_range("bytes=-5", 0), RangeOutcome::Unsatisfiable);
    assert_eq!(parse_range("bytes=0-", 0), RangeOutcome::Unsatisfiable);
    let plan = plan_stream(Some("bytes=0-"), 0);
    assert_eq!(plan.status, 416);
    assert_eq!(plan.content_range.as_deref(), Some("bytes */0"));
}

#[test]
fn content_types_follow_the_extension() {
    assert_eq!(content_type_for("chan/video.mp4"), "video/mp4");
    assert_eq!(content_type_for("chan/video.webm"), "video/webm");
    assert_eq!(content_type_for("chan/v.1.mkv"), "video/x-matroska");
    assert_eq!(content_type_for("a.mov"), "video/quicktime");
    assert_eq!(content_type_for("a.avi"), "video/x-msvideo");
    assert_eq!(content_type_for("a.txt"), "application/octet-stream");
    assert_eq!(content_type_for("dir.mp4/noext"), "application/octet-stream");
    assert_eq!(content_type_for(".mp4"), "application/octet-stream");
}

#[test]
fn only_relative_paths_without_parent_segments_are_served() {
    assert!(is_safe_media_path("chan/video.mkv"));
    assert!(is_safe_media_path("chan/..video.mkv"));
    assert!(!is_safe_media_path(""));
    assert!(!is_safe_media_path("/etc/passwd"));
    assert!(!is_safe_media_path("../secret"));
    assert!(!is_safe_media_path("chan/../../secret"));
    assert!(!is_safe_media_path("chan/.."));
}

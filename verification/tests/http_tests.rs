use multifiledownloader::http::{
    range_header, read_header_number, success, throttled, HttpResponse,
};

fn response(
    status: u16,
    content_length: Option<&str>,
    retry_after: Option<&str>,
    body_length: Option<u64>,
) -> HttpResponse {
    HttpResponse {
        status,
        content_length: content_length.map(|s| s.to_string()),
        retry_after: retry_after.map(|s| s.to_string()),
        body_length,
    }
}

#[test]
fn status_classes() {
    assert!(throttled(429));
    assert!(!throttled(428));
    assert!(success(200));
    assert!(success(206));
    assert!(success(299));
    assert!(!success(199));
    assert!(!success(300));
    assert!(!success(429));
    assert!(!success(404));
}

#[test]
fn header_numbers() {
    assert_eq!(read_header_number(&None), None);
    assert_eq!(read_header_number(&Some("500".to_string())), Some(500));
    assert_eq!(read_header_number(&Some("abc".to_string())), None);
    assert_eq!(read_header_number(&Some("".to_string())), None);
}

#[test]
fn probed_length_prefers_the_header() {
    assert_eq!(response(200, Some("500"), None, Some(9)).probed_length(), 500);
    assert_eq!(response(200, None, None, Some(9)).probed_length(), 9);
    assert_eq!(response(200, None, None, None).probed_length(), 0);
    assert_eq!(response(200, Some("0"), None, Some(9)).probed_length(), 0);
}

#[test]
fn declared_length_reads_the_header_only() {
    assert_eq!(response(200, Some("500"), None, Some(9)).declared_length(), 500);
    assert_eq!(response(200, None, None, Some(9)).declared_length(), 0);
    assert_eq!(response(200, Some("x"), None, Some(9)).declared_length(), 0);
}

#[test]
fn retry_delay_reads_the_header_or_falls_back() {
    assert_eq!(response(429, None, Some("120"), None).retry_delay(1500), 120);
    assert_eq!(response(429, None, None, None).retry_delay(1500), 1500);
    assert_eq!(response(429, None, Some("soon"), None).retry_delay(1500), 1500);
    assert_eq!(
        response(429, None, Some("Wed, 21 Oct 2015 07:28:00 GMT"), None).retry_delay(2999),
        2999
    );
}

#[test]
fn a_header_that_writes_no_number_declares_no_length() {
    assert_eq!(response(200, Some("twelve"), None, Some(9)).probed_length(), 9);
    assert_eq!(response(200, Some("twelve"), None, None).probed_length(), 0);
    assert_eq!(response(200, Some(""), None, None).probed_length(), 0);
    assert_eq!(response(200, Some("-1"), None, None).probed_length(), 0);
    assert_eq!(response(200, Some("1é"), None, None).declared_length(), 0);
}

#[test]
fn range_header_names_the_offset() {
    assert_eq!(range_header(0), "bytes=0-");
    assert_eq!(range_header(100), "bytes=100-");
    assert_eq!(range_header(u64::MAX), "bytes=18446744073709551615-");
}

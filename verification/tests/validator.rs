use proxy_tunnel::response::ResponseCursor;
use proxy_tunnel::response::ScanState;
use proxy_tunnel::response::ValidateError;
use proxy_tunnel::response::scan_step;
use proxy_tunnel::response::validate_status_prefix;
use proxy_tunnel::utf8::utf8_valid;

#[test]
fn canned_ok_response_consumes_headers_only() {
    let response = b"HTTP/1.1 200 OK\r\nHeader: x\r\n\r\npayload";
    let mut cursor = ResponseCursor::new(true);
    assert_eq!(cursor.bytes_needed(), 12);
    let code = cursor.consume_status(&response[..12]);
    assert_eq!(code, Ok(200));
    assert_eq!(cursor.state, ScanState::HeaderOk);
    assert_eq!(cursor.bytes_needed(), 1);
    let consumed = cursor.feed(&response[12..]).unwrap();
    assert!(cursor.is_done());
    assert_eq!(&response[12 + consumed..], b"payload");
    assert_eq!(consumed, response.len() - 12 - b"payload".len());
}

#[test]
fn status_404_fails_with_range_error() {
    let mut cursor = ResponseCursor::new(true);
    let r = cursor.consume_status(b"HTTP/1.1 404");
    assert_eq!(r, Err(ValidateError::NotSuccess));
    assert_eq!(cursor.state, ScanState::Started);
    assert!(!cursor.is_done());
}

#[test]
fn status_non_numeric_fails_with_number_error() {
    let mut cursor = ResponseCursor::new(true);
    let r = cursor.consume_status(b"HTTP/1.1 abc");
    assert_eq!(r, Err(ValidateError::NotNumber));
    assert_eq!(cursor.state, ScanState::Started);
}

#[test]
fn status_non_text_fails_with_text_error() {
    let mut prefix = *b"HTTP/1.1 200";
    prefix[0] = 0xFF;
    let mut cursor = ResponseCursor::new(true);
    let r = cursor.consume_status(&prefix);
    assert_eq!(r, Err(ValidateError::NotText));
}

#[test]
fn lone_cr_after_status_fails_with_end_of_line_error() {
    let response = b"HTTP/1.1 200\r\rOK\r\n\r\n";
    let mut cursor = ResponseCursor::new(true);
    assert_eq!(cursor.consume_status(&response[..12]), Ok(200));
    let r = cursor.feed(&response[12..]);
    assert_eq!(r, Err(ValidateError::InvalidEndOfLine));
    assert_eq!(cursor.state, ScanState::HeaderOk);
}

#[test]
fn done_cursor_feeds_as_noop() {
    let mut cursor = ResponseCursor::new(false);
    assert!(cursor.is_done());
    assert_eq!(cursor.bytes_needed(), 0);
    let r = cursor.feed(b"HTTP/1.1 200 OK\r\n\r\n");
    assert_eq!(r, Ok(0));
    assert!(cursor.is_done());
}

#[test]
fn byte_in_started_state_is_invalid_header() {
    let mut cursor = ResponseCursor::new(true);
    let r = cursor.feed(b"x");
    assert_eq!(r, Err(ValidateError::InvalidHeader));
    assert_eq!(cursor.state, ScanState::Started);
}

#[test]
fn feed_suspends_and_resumes_at_byte_level() {
    let mut cursor = ResponseCursor::new(true);
    assert_eq!(cursor.consume_status(b"HTTP/1.1 204"), Ok(204));
    for &b in b"A: b\r\n\r" {
        let r = cursor.feed(&[b]);
        assert_eq!(r, Ok(1));
        assert!(!cursor.is_done());
    }
    assert_eq!(cursor.state, ScanState::SecondCr);
    assert_eq!(cursor.feed(&[b'\n']), Ok(1));
    assert!(cursor.is_done());
}

#[test]
fn status_boundaries_of_success_range() {
    assert_eq!(validate_status_prefix(b"HTTP/1.1 200"), Ok(200));
    assert_eq!(validate_status_prefix(b"HTTP/1.1 299"), Ok(299));
    assert_eq!(
        validate_status_prefix(b"HTTP/1.1 300"),
        Err(ValidateError::NotSuccess)
    );
    assert_eq!(
        validate_status_prefix(b"HTTP/1.1 199"),
        Err(ValidateError::NotSuccess)
    );
    assert_eq!(validate_status_prefix(b"HTTP/1.0 250"), Ok(250));
}

#[test]
fn scan_step_follows_the_transition_table() {
    let cr = b'\r';
    let lf = b'\n';
    assert_eq!(scan_step(ScanState::HeaderOk, cr), Ok(ScanState::FirstCr));
    assert_eq!(scan_step(ScanState::HeaderOk, b'x'), Ok(ScanState::HeaderOk));
    assert_eq!(scan_step(ScanState::HeaderOk, lf), Ok(ScanState::HeaderOk));
    assert_eq!(scan_step(ScanState::FirstCr, lf), Ok(ScanState::FirstLf));
    assert_eq!(scan_step(ScanState::FirstCr, cr), Err(ValidateError::InvalidEndOfLine));
    assert_eq!(
        scan_step(ScanState::FirstCr, b'x'),
        Err(ValidateError::InvalidEndOfLine)
    );
    assert_eq!(scan_step(ScanState::FirstLf, cr), Ok(ScanState::SecondCr));
    assert_eq!(scan_step(ScanState::FirstLf, b'x'), Ok(ScanState::HeaderOk));
    assert_eq!(scan_step(ScanState::SecondCr, lf), Ok(ScanState::Done));
    assert_eq!(
        scan_step(ScanState::SecondCr, b'x'),
        Err(ValidateError::InvalidEndOfLine)
    );
    assert_eq!(scan_step(ScanState::Started, b'x'), Err(ValidateError::InvalidHeader));
    assert_eq!(scan_step(ScanState::Done, b'x'), Err(ValidateError::InvalidHeader));
}

#[test]
fn error_messages_name_each_failure() {
    assert_eq!(ValidateError::NotText.message(), "invalid status: not valid text");
    assert_eq!(ValidateError::NotNumber.message(), "invalid status: not a number");
    assert_eq!(ValidateError::NotSuccess.message(), "invalid status: not success");
    assert_eq!(ValidateError::InvalidEndOfLine.message(), "invalid end of line");
    assert_eq!(ValidateError::InvalidHeader.message(), "invalid header");
}

#[test]
fn utf8_validity_follows_the_encoding_table() {
    assert!(utf8_valid(b"HTTP/1.1 200"));
    assert!(utf8_valid(b""));
    assert!(utf8_valid("h\u{e9}llo".as_bytes()));
    assert!(utf8_valid("\u{10FFFF}\u{FFFD}".as_bytes()));
    assert!(!utf8_valid(&[0x80]));
    assert!(!utf8_valid(&[0xC0, 0x80]));
    assert!(!utf8_valid(&[0xC2]));
    assert!(!utf8_valid(&[0xE0, 0x80, 0x80]));
    assert!(!utf8_valid(&[0xED, 0xA0, 0x80]));
    assert!(!utf8_valid(&[0xF0, 0x80, 0x80, 0x80]));
    assert!(!utf8_valid(&[0xF4, 0x90, 0x80, 0x80]));
    assert!(!utf8_valid(&[0xF5, 0x80, 0x80, 0x80]));
    assert!(utf8_valid(&[0xF4, 0x8F, 0xBF, 0xBF]));
}

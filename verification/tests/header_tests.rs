use uhttp_response_header::FailingSink;
use uhttp_response_header::HeaderLine;
use uhttp_response_header::HeaderLines;
use uhttp_response_header::Sink;
use uhttp_response_header::SinkError;
use uhttp_response_header::VecSink;

#[test]
fn test_header_line() {
    let sink = VecSink::new();
    let mut h = HeaderLine::new(sink);
    h.write(b"ABC: DEF").unwrap();
    h.write(format!(" {}", 42).as_bytes()).unwrap();
    let sink = h.finish();
    assert_eq!(sink.as_bytes(), &b"ABC: DEF 42\r\n"[..]);
}

#[test]
fn test_header_lines() {
    let sink = VecSink::new();
    let h = HeaderLines::new(sink);
    let mut l = h.line();
    l.write(b"header: value").unwrap();
    let h = l.end();
    let mut l = h.line();
    l.write(format!("field: {}", 1337).as_bytes()).unwrap();
    let h = l.end();
    let sink = h.finish();
    assert_eq!(sink.as_bytes(), &b"header: value\r\nfield: 1337\r\n\r\n"[..]);
}

#[test]
fn response_header_then_body() {
    let sink = VecSink::new();
    let h = HeaderLines::new(sink);
    let mut l = h.line();
    l.write(format!("{} {}", "HTTP/1.1", "200 OK").as_bytes()).unwrap();
    let h = l.end();
    let mut l = h.line();
    l.write(format!("Host: {}", "iana.org").as_bytes()).unwrap();
    let h = l.end();
    let mut sink = h.finish();
    sink.write(b"hello").unwrap();
    assert_eq!(sink.as_bytes(), &b"HTTP/1.1 200 OK\r\nHost: iana.org\r\n\r\nhello"[..]);
}

#[test]
fn empty_block_writes_blank_line() {
    let sink = VecSink::new();
    let h = HeaderLines::new(sink);
    let sink = h.finish();
    assert_eq!(sink.as_bytes(), &b"\r\n"[..]);
}

#[test]
fn body_follows_blank_line_without_separator() {
    let sink = VecSink::new();
    let h = HeaderLines::new(sink);
    let mut sink = h.finish();
    sink.write(b"body").unwrap();
    assert_eq!(sink.as_bytes(), &b"\r\nbody"[..]);
}

#[test]
fn line_with_no_writes_is_blank() {
    let h = HeaderLines::new(VecSink::new());
    let l = h.line();
    let h = l.end();
    let sink = h.finish();
    assert_eq!(sink.as_bytes(), &b"\r\n\r\n"[..]);
}

#[test]
fn two_writes_land_in_one_line() {
    let h = HeaderLines::new(VecSink::new());
    let mut l = h.line();
    l.write(b"key:").unwrap();
    l.write(b" value").unwrap();
    let h = l.end();
    let sink = h.finish();
    assert_eq!(sink.as_bytes(), &b"key: value\r\n\r\n"[..]);
}

#[test]
fn write_reports_count_written() {
    let mut l = HeaderLine::new(VecSink::new());
    assert_eq!(l.write(b"abc"), Ok(3));
    assert_eq!(l.flush(), Ok(()));
    let sink = l.finish();
    assert_eq!(sink.into_vec(), b"abc\r\n".to_vec());
}

#[test]
fn caller_writes_report_sink_failure() {
    let mut l = HeaderLine::new(FailingSink);
    assert_eq!(l.write(b"x"), Err(SinkError));
    assert_eq!(l.flush(), Err(SinkError));
}

#[test]
fn line_teardown_swallows_failure() {
    let l = HeaderLine::new(FailingSink);
    let _sink = l.finish();
}

#[test]
fn block_teardown_swallows_failure() {
    let h = HeaderLines::new(FailingSink);
    let l = h.line();
    let h = l.end();
    let _sink = h.finish();
}

#[test]
fn vec_sink_accepts_all_writes() {
    let mut sink = VecSink::new();
    assert_eq!(sink.write(b"ab"), Ok(2));
    assert_eq!(sink.write(b""), Ok(0));
    assert_eq!(sink.flush(), Ok(()));
    assert_eq!(sink.as_bytes(), &b"ab"[..]);
}

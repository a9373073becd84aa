use unai::sse::{is_done_marker, parse_sse_line};

#[test]
fn test_parse_sse_line() {
    assert_eq!(parse_sse_line("data: hello"), Some("hello"));
    assert_eq!(
        parse_sse_line("data: {\"key\": \"value\"}"),
        Some("{\"key\": \"value\"}")
    );
    assert_eq!(parse_sse_line("data:   spaces  "), Some("spaces"));
    assert_eq!(parse_sse_line("invalid"), None);
    assert_eq!(parse_sse_line(""), None);
}

#[test]
fn test_is_done_marker() {
    assert!(is_done_marker("[DONE]"));
    assert!(!is_done_marker(""));
    assert!(!is_done_marker("data"));
    assert!(!is_done_marker("{\"key\": \"value\"}"));
}

#[test]
fn parse_sse_line_needs_space_after_colon() {
    assert_eq!(parse_sse_line("data:x"), None);
    assert_eq!(parse_sse_line("event: ping"), None);
    assert_eq!(parse_sse_line("data: [DONE]"), Some("[DONE]"));
}

use unai::sse::{SseDecoder, SseEvent};

fn data(e: Option<SseEvent>) -> Option<String> {
    match e {
        Some(SseEvent::Data(d)) => Some(d),
        Some(SseEvent::Done) => Some("<done>".to_string()),
        None => None,
    }
}

#[test]
fn decoder_joins_lines_cut_across_chunks() {
    let mut dec = SseDecoder::new();
    dec.push("data: {\"a\"");
    assert_eq!(data(dec.next_event()), None);
    dec.push(":1}\n\n: comment\nevent: x\ndata:  two \r\n");
    assert_eq!(data(dec.next_event()), Some("{\"a\":1}".to_string()));
    assert_eq!(data(dec.next_event()), Some("two".to_string()));
    assert_eq!(data(dec.next_event()), None);
    dec.push("data: [DONE]\ndata: after\n");
    assert_eq!(data(dec.next_event()), Some("<done>".to_string()));
}

#[test]
fn decoder_flushes_unterminated_last_line() {
    let mut dec = SseDecoder::new();
    dec.push("data: tail");
    assert_eq!(data(dec.next_event()), None);
    assert_eq!(dec.finish(), Some("tail".to_string()));
    assert_eq!(dec.finish(), None);
    let mut dec = SseDecoder::new();
    dec.push("data: [DONE]");
    assert_eq!(dec.finish(), None);
}

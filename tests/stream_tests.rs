use unai::model::{FinishReason, Message, Part};
use unai::stream::{
    finish_reason_from_wire, StreamAccumulator, StreamChoice, StreamChunk, StreamEvent, TokenCounts,
    ToolCallDelta,
};

fn text_chunk(t: &str) -> StreamChunk {
    StreamChunk {
        choices: vec![StreamChoice { content: Some(t.to_string()), tool_calls: vec![], finish_reason: None }],
        usage: None,
    }
}

fn parts_of(acc: &StreamAccumulator) -> Vec<Part> {
    let r = acc.snapshot();
    assert_eq!(r.data.len(), 1);
    match &r.data[0] {
        Message::Assistant(p) => p.clone(),
        other => panic!("expected an assistant message, got {:?}", other),
    }
}

fn delta(index: u32, id: Option<&str>, name: Option<&str>, args: Option<&str>) -> ToolCallDelta {
    ToolCallDelta {
        index,
        id: id.map(|s| s.to_string()),
        name: name.map(|s| s.to_string()),
        arguments: args.map(|s| s.to_string()),
    }
}

#[test]
fn text_deltas_concatenate_and_snapshots_are_prefixes() {
    let deltas = ["Hel", "lo, ", "wor", "ld"];
    let mut acc = StreamAccumulator::new();
    let mut seen: Vec<String> = Vec::new();
    for d in deltas {
        acc.apply_chunk(&text_chunk(d));
        let parts = parts_of(&acc);
        assert_eq!(parts.len(), 1);
        match &parts[0] {
            Part::Text { content, finished } => {
                assert!(!finished);
                seen.push(content.clone());
            }
            other => panic!("expected text, got {:?}", other),
        }
    }
    let last = seen.last().unwrap().clone();
    assert_eq!(last, "Hello, world");
    for s in &seen {
        assert!(last.starts_with(s.as_str()));
    }
}

#[test]
fn interleaved_tool_calls_stay_apart() {
    let mut acc = StreamAccumulator::new();
    let chunk = |ds: Vec<ToolCallDelta>| StreamChunk {
        choices: vec![StreamChoice { content: None, tool_calls: ds, finish_reason: None }],
        usage: None,
    };
    acc.apply_chunk(&chunk(vec![delta(0, Some("call_a"), Some("get_"), Some("{\"ci"))]));
    acc.apply_chunk(&chunk(vec![delta(1, Some("call_b"), Some("get_time"), Some("{\"tz\""))]));
    acc.apply_chunk(&chunk(vec![delta(0, None, Some("weather"), Some("ty\":\"Paris\"}")), delta(1, None, None, Some(":\"UTC\"}"))]));
    let parts = parts_of(&acc);
    assert_eq!(parts.len(), 2);
    match (&parts[0], &parts[1]) {
        (
            Part::FunctionCall { id: id0, name: n0, arguments: a0, finished: f0, .. },
            Part::FunctionCall { id: id1, name: n1, arguments: a1, .. },
        ) => {
            assert_eq!(id0.as_deref(), Some("call_a"));
            assert_eq!(n0, "get_weather");
            assert_eq!(a0, "{\"city\":\"Paris\"}");
            assert!(!f0);
            assert_eq!(id1.as_deref(), Some("call_b"));
            assert_eq!(n1, "get_time");
            assert_eq!(a1, "{\"tz\":\"UTC\"}");
        }
        other => panic!("expected two calls, got {:?}", other),
    }
}

#[test]
fn finish_marks_parts_and_parses_arguments() {
    let mut acc = StreamAccumulator::new();
    acc.apply_event(StreamEvent::Text("Checking".to_string()));
    acc.apply_event(StreamEvent::ToolCall(delta(0, Some("c0"), Some("good"), Some("{\"a\": 1}"))));
    acc.apply_event(StreamEvent::ToolCall(delta(1, Some("c1"), Some("bad"), Some("{\"a\": "))));
    acc.apply_chunk(&StreamChunk {
        choices: vec![StreamChoice { content: None, tool_calls: vec![], finish_reason: Some("tool_calls".to_string()) }],
        usage: None,
    });
    let r = acc.snapshot();
    assert_eq!(r.finish, FinishReason::ToolCalls);
    let parts = match &r.data[0] {
        Message::Assistant(p) => p.clone(),
        _ => panic!(),
    };
    assert!(matches!(&parts[0], Part::Text { content, finished: true } if content == "Checking"));
    assert!(matches!(&parts[1], Part::FunctionCall { arguments, finished: true, .. } if arguments == "{\"a\": 1}"));
    assert!(matches!(&parts[2], Part::FunctionCall { arguments, finished: true, .. } if arguments == "{}"));
}

#[test]
fn text_after_tool_call_starts_new_part() {
    let mut acc = StreamAccumulator::new();
    acc.apply_event(StreamEvent::Text("a".to_string()));
    acc.apply_event(StreamEvent::ToolCall(delta(3, None, Some("f"), None)));
    acc.apply_event(StreamEvent::Text("b".to_string()));
    let parts = parts_of(&acc);
    assert_eq!(parts.len(), 3);
    assert!(matches!(&parts[2], Part::Text { content, .. } if content == "b"));
}

#[test]
fn usage_reports_are_running_totals() {
    let mut acc = StreamAccumulator::new();
    for completion in [100u32, 120, 150] {
        acc.apply_chunk(&StreamChunk {
            choices: vec![],
            usage: Some(TokenCounts { prompt_tokens: 40, completion_tokens: completion }),
        });
    }
    let r = acc.into_response();
    assert_eq!(r.usage.completion_tokens, Some(150));
    assert_eq!(r.usage.prompt_tokens, Some(40));
    assert_eq!(r.finish, FinishReason::Unfinished);
}

#[test]
fn finish_reason_table() {
    assert_eq!(finish_reason_from_wire("tool_calls"), FinishReason::ToolCalls);
    assert_eq!(finish_reason_from_wire("length"), FinishReason::OutputTokens);
    assert_eq!(finish_reason_from_wire("stop"), FinishReason::Stop);
    assert_eq!(finish_reason_from_wire("content_filter"), FinishReason::ContentFilter);
    assert_eq!(finish_reason_from_wire("something_new"), FinishReason::Stop);
    assert_eq!(finish_reason_from_wire(""), FinishReason::Stop);
}

use unai::gemini::{gemini_stream_events, GeminiCandidate, GeminiContent, GeminiFinishReason, GeminiPart, GeminiResponse, GeminiRole, GeminiUsageMetadata};

fn gemini_chunk(parts: Vec<GeminiPart>, finish: Option<GeminiFinishReason>, completion: u32) -> GeminiResponse {
    GeminiResponse {
        candidates: vec![GeminiCandidate { content: GeminiContent { role: GeminiRole::Model, parts }, finish_reason: finish }],
        usage_metadata: Some(GeminiUsageMetadata { prompt_token_count: 9, candidates_token_count: Some(completion), thoughts_token_count: None }),
    }
}

#[test]
fn gemini_stream_accumulates_through_events() {
    let mut acc = StreamAccumulator::new();
    let mut calls = 0u32;
    let chunks = vec![
        gemini_chunk(vec![GeminiPart::Text { thought: None, text: "It is ".to_string() }], None, 2),
        gemini_chunk(vec![GeminiPart::Text { thought: Some(true), text: "thinking".to_string() }, GeminiPart::Text { thought: None, text: "sunny".to_string() }], None, 4),
        gemini_chunk(vec![GeminiPart::FunctionCall { thought_signature: None, name: "f".to_string(), args: "{\"x\":1}".to_string() }], Some(GeminiFinishReason::Stop), 6),
    ];
    for c in &chunks {
        let (events, next) = gemini_stream_events(c, calls);
        calls = next;
        for e in events {
            acc.apply_event(e);
        }
    }
    assert_eq!(calls, 1);
    let r = acc.into_response();
    assert_eq!(r.finish, FinishReason::Stop);
    assert_eq!(r.usage.completion_tokens, Some(6));
    match &r.data[0] {
        Message::Assistant(parts) => {
            assert_eq!(parts.len(), 2);
            assert!(matches!(&parts[0], Part::Text { content, finished: true } if content == "It is sunny"));
            assert!(matches!(&parts[1], Part::FunctionCall { name, arguments, finished: true, .. } if name == "f" && arguments == "{\"x\":1}"));
        }
        _ => panic!(),
    }
}

use unai::anthropic::{build_anthropic_request, response_from_anthropic, AnthropicResponse};
use unai::gemini::{
    build_gemini_request, content_from_message, part_from_gemini, response_from_gemini, GeminiCandidate,
    GeminiContent, GeminiFinishReason, GeminiPart, GeminiResponse, GeminiRole, GeminiUsageMetadata,
};
use unai::json::error_payload;
use unai::model::{FinishReason, MediaPart, MediaType, Message, Part, Role};
use unai::openai::{
    build_chat_request, encode_message_to_wire, message_from_wire, response_from_wire, ChatChoice,
    ChatResponse, Content, ContentPart, WireToolCall,
};
use unai::providers::{chat_completions_url, generate_content_url, messages_url, require_model};
use unai::stream::TokenCounts;
use unai::tools::ToolDescriptor;
use unai::client::ClientError;

fn text(s: &str) -> Part {
    Part::Text { content: s.to_string(), finished: true }
}

#[test]
fn openai_user_text_round_trip() {
    for s in ["", "plain", "with \"quotes\" and\nnewline", "ünïcødé ✓"] {
        let m = Message::User(vec![text(s)]);
        let wire = encode_message_to_wire(&m);
        assert_eq!(wire.role, "user");
        let back = message_from_wire(&wire);
        assert_eq!(back.role(), Role::User);
        match back {
            Message::User(parts) => {
                assert_eq!(parts.len(), 1);
                assert!(matches!(&parts[0], Part::Text { content, finished: true } if content == s));
            }
            other => panic!("expected user message, got {:?}", other),
        }
    }
}

#[test]
fn gemini_user_text_round_trip() {
    let m = Message::User(vec![text("bonjour")]);
    let c = content_from_message(&m);
    assert_eq!(c.role, GeminiRole::User);
    assert_eq!(c.parts.len(), 1);
    let back = part_from_gemini(&c.parts[0]);
    assert!(matches!(back, Part::Text { ref content, finished: true } if content == "bonjour"));
}

#[test]
fn openai_request_has_system_first_and_token_limit() {
    let messages = vec![
        Message::User(vec![text("hi")]),
        Message::Assistant(vec![Part::FunctionCall {
            id: Some("call_1".to_string()),
            name: "f".to_string(),
            arguments: "{\"x\":1}".to_string(),
            signature: None,
            finished: true,
        }]),
        Message::User(vec![Part::FunctionResponse {
            id: Some("call_1".to_string()),
            name: "f".to_string(),
            response: "{\"ok\":true}".to_string(),
            parts: vec![],
            finished: true,
        }]),
    ];
    let tools = vec![ToolDescriptor { name: "f".to_string(), description: None, input_schema: "{\"type\":\"object\"}".to_string() }];
    let req = build_chat_request(&messages, &Some("be brief".to_string()), &"gpt-5".to_string(), Some(50), &tools, true);
    assert_eq!(req.messages.len(), 4);
    assert_eq!(req.messages[0].role, "system");
    assert!(matches!(&req.messages[0].content, Content::Text(t) if t == "be brief"));
    assert!(matches!(&req.messages[1].content, Content::Text(t) if t == "hi"));
    assert_eq!(req.messages[2].role, "assistant");
    assert_eq!(req.messages[2].tool_calls.len(), 1);
    assert_eq!(req.messages[2].tool_calls[0].arguments, "{\"x\":1}");
    assert_eq!(req.messages[3].role, "tool");
    assert_eq!(req.messages[3].tool_call_id.as_deref(), Some("call_1"));
    assert!(matches!(&req.messages[3].content, Content::Text(t) if t == "{\"ok\":true}"));
    assert_eq!(req.max_tokens, Some(50));
    assert_eq!(req.max_completion_tokens, None);
    assert_eq!(req.stream, Some(true));
    assert_eq!(req.include_usage, Some(true));
    assert_eq!(req.tools.len(), 1);

    let req = build_chat_request(&messages, &None, &"o3-mini".to_string(), Some(50), &vec![], false);
    assert_eq!(req.messages.len(), 3);
    assert_eq!(req.max_tokens, None);
    assert_eq!(req.max_completion_tokens, Some(50));
    assert_eq!(req.stream, None);
}

#[test]
fn openai_image_becomes_data_url() {
    let m = Message::User(vec![
        text("look"),
        Part::Media { media_type: MediaType::Image, data: "AAAA".to_string(), mime_type: "image/png".to_string(), uri: None, finished: true },
    ]);
    let wire = encode_message_to_wire(&m);
    match &wire.content {
        Content::Parts(ps) => {
            assert_eq!(ps.len(), 3);
            assert!(matches!(&ps[1], ContentPart::Text { text } if text == "[Attachment: image/png]"));
            assert!(matches!(&ps[2], ContentPart::ImageUrl { url } if url == "data:image/png;base64,AAAA"));
        }
        other => panic!("expected parts, got {:?}", other),
    }
}

#[test]
fn openai_tool_result_notes_media() {
    let m = Message::User(vec![Part::FunctionResponse {
        id: Some("c".to_string()),
        name: "shot".to_string(),
        response: "{}".to_string(),
        parts: vec![MediaPart { media_type: MediaType::Image, data: "x".to_string(), mime_type: "image/jpeg".to_string(), uri: Some("file:///a.jpg".to_string()), finished: true }],
        finished: true,
    }]);
    let wire = encode_message_to_wire(&m);
    assert!(matches!(&wire.content, Content::Text(t) if t == "\n[Attachment: file:///a.jpg]\n[Image Content]"));
}

#[test]
fn openai_response_reading() {
    let resp = ChatResponse {
        choices: vec![ChatChoice {
            content: Some("Hi".to_string()),
            tool_calls: vec![
                WireToolCall { id: "1".to_string(), name: "f".to_string(), arguments: "{\"a\":2}".to_string() },
                WireToolCall { id: "2".to_string(), name: "g".to_string(), arguments: "not json".to_string() },
            ],
            finish_reason: Some("length".to_string()),
        }],
        usage: Some(TokenCounts { prompt_tokens: 7, completion_tokens: 3 }),
    };
    let r = response_from_wire(&resp);
    assert_eq!(r.finish, FinishReason::OutputTokens);
    assert_eq!(r.usage.prompt_tokens, Some(7));
    match &r.data[0] {
        Message::Assistant(parts) => {
            assert_eq!(parts.len(), 3);
            assert!(matches!(&parts[1], Part::FunctionCall { arguments, .. } if arguments == "{\"a\":2}"));
            assert!(matches!(&parts[2], Part::FunctionCall { arguments, .. } if arguments == "null"));
        }
        _ => panic!(),
    }
    let empty = response_from_wire(&ChatResponse { choices: vec![], usage: None });
    assert_eq!(empty.finish, FinishReason::Stop);
    assert_eq!(empty.usage.prompt_tokens, None);
}

#[test]
fn gemini_system_messages_become_instructions() {
    let messages = vec![
        Message::System(vec![text("rule one"), text("rule two")]),
        Message::User(vec![text("hi")]),
        Message::Assistant(vec![Part::Reasoning { content: "hmm".to_string(), summary: None, signature: None, finished: true }]),
    ];
    let req = build_gemini_request(&messages, &Some("base".to_string()), Some(64), Some(true), &vec![]);
    assert_eq!(req.system_instruction.as_deref(), Some("base\nrule one\nrule two"));
    assert_eq!(req.contents.len(), 2);
    assert_eq!(req.contents[1].role, GeminiRole::Model);
    assert!(matches!(&req.contents[1].parts[0], GeminiPart::Text { thought: Some(true), text } if text == "hmm"));
    assert_eq!(req.max_output_tokens, Some(64));
}

#[test]
fn gemini_response_reading() {
    let resp = GeminiResponse {
        candidates: vec![GeminiCandidate {
            content: GeminiContent {
                role: GeminiRole::Model,
                parts: vec![
                    GeminiPart::Text { thought: None, text: "a".to_string() },
                    GeminiPart::FunctionCall { thought_signature: Some("sig".to_string()), name: "f".to_string(), args: "{}".to_string() },
                ],
            },
            finish_reason: Some(GeminiFinishReason::Safety),
        }],
        usage_metadata: Some(GeminiUsageMetadata { prompt_token_count: 5, candidates_token_count: Some(7), thoughts_token_count: Some(3) }),
    };
    let r = response_from_gemini(&resp);
    assert_eq!(r.data.len(), 2);
    assert_eq!(r.finish, FinishReason::ContentFilter);
    assert_eq!(r.usage.completion_tokens, Some(10));
    assert!(matches!(&r.data[1], Message::Assistant(p) if matches!(&p[0], Part::FunctionCall { signature: Some(s), .. } if s == "sig")));
}

#[test]
fn anthropic_request_and_response() {
    let messages = vec![
        Message::System(vec![text("sys")]),
        Message::User(vec![text("a"), text("b")]),
        Message::Assistant(vec![]),
    ];
    let req = build_anthropic_request(&messages, &None, &"model-x".to_string(), None, &vec![]);
    assert_eq!(req.max_tokens, 1024);
    assert_eq!(req.system.as_deref(), Some("sys"));
    assert_eq!(req.messages.len(), 1);
    assert_eq!(req.messages[0].role, "user");
    assert_eq!(req.messages[0].content, "a\nb");

    let r = response_from_anthropic(&AnthropicResponse {
        content: vec!["Hel".to_string(), "lo".to_string()],
        stop_reason: Some("max_tokens".to_string()),
        input_tokens: 3,
        output_tokens: 4,
    });
    assert_eq!(r.finish, FinishReason::OutputTokens);
    assert!(matches!(&r.data[0], Message::Assistant(p) if matches!(&p[0], Part::Text { content, .. } if content == "Hello")));
    assert_eq!(r.usage.completion_tokens, Some(4));
}

#[test]
fn error_payload_escapes_message() {
    assert_eq!(error_payload("plain"), "{\"error\":\"plain\"}");
    assert_eq!(error_payload("a\"b\\c\n"), "{\"error\":\"a\\\"b\\\\c\\n\"}");
}

#[test]
fn endpoints_and_model_check() {
    assert_eq!(chat_completions_url("https://api.groq.com/openai/v1"), "https://api.groq.com/openai/v1/chat/completions");
    assert_eq!(messages_url("https://api.anthropic.com/v1"), "https://api.anthropic.com/v1/messages");
    assert_eq!(
        generate_content_url("https://g/v1beta", "gemini-2.5", "k", true),
        "https://g/v1beta/models/gemini-2.5:streamGenerateContent?alt=sse&key=k"
    );
    assert_eq!(generate_content_url("b", "m", "k", false), "b/models/m:generateContent?key=k");
    assert!(require_model("gpt-5").is_ok());
    match require_model("") {
        Err(ClientError::Config(m)) => assert_eq!(m, "Model must be specified"),
        other => panic!("expected configuration error, got {:?}", other),
    }
}

#[test]
fn provider_error_texts() {
    let e = unai::client::provider_error("OpenAI", Some(("invalid_request_error".to_string(), "bad".to_string())), "400 Bad Request", "{}");
    assert!(matches!(e, ClientError::ProviderError(ref m) if m == "OpenAI error (invalid_request_error): bad"));
    let e = unai::client::provider_error("Gemini", None, "502 Bad Gateway", "upstream");
    assert!(matches!(e, ClientError::ProviderError(ref m) if m == "HTTP 502 Bad Gateway: upstream"));
    assert_eq!(e.message(), "Provider error: HTTP 502 Bad Gateway: upstream");
}

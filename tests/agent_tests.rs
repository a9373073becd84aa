use unai::agent::{AgentAction, AgentLoop, ToolCall, ToolOutput, DEFAULT_MAX_ITERATIONS};
use unai::client::ClientError;
use unai::gemini::{content_from_message, part_from_gemini, GeminiPart};
use unai::model::{FinishReason, Message, Part, Response, Usage};

struct Outcome {
    result: Result<Response, ClientError>,
    requests: usize,
    calls: Vec<ToolCall>,
}

/// Drives the loop the way an agent does, with canned model responses and a
/// tool that answers through `tool`.
fn drive(
    messages: Vec<Message>,
    max_iterations: usize,
    has_server: bool,
    mut responses: Vec<Response>,
    tool: &dyn Fn(&ToolCall) -> Result<ToolOutput, String>,
) -> Outcome {
    let (mut state, mut action) = AgentLoop::start(messages, Vec::new(), max_iterations, has_server);
    let mut requests = 0;
    let mut calls = Vec::new();
    loop {
        action = match action {
            AgentAction::Request => {
                requests += 1;
                assert!(!responses.is_empty(), "more requests than canned responses");
                state.on_response(responses.remove(0))
            }
            AgentAction::CallTool(call) => {
                let out = tool(&call);
                calls.push(call);
                state.on_tool_result(out)
            }
            AgentAction::Done(r) => {
                return Outcome { result: Ok(r), requests, calls };
            }
            AgentAction::Fail(e) => {
                return Outcome { result: Err(e), requests, calls };
            }
        }
    }
}

fn text_response(text: &str) -> Response {
    Response {
        data: vec![Message::Assistant(vec![Part::Text {
            content: text.to_string(),
            finished: true,
        }])],
        usage: Usage::default(),
        finish: FinishReason::Stop,
    }
}

fn call_response(id: &str, name: &str, args: &str) -> Response {
    Response {
        data: vec![Message::Assistant(vec![Part::FunctionCall {
            id: Some(id.to_string()),
            name: name.to_string(),
            arguments: args.to_string(),
            signature: None,
            finished: true,
        }])],
        usage: Usage { prompt_tokens: Some(10), completion_tokens: Some(5) },
        finish: FinishReason::ToolCalls,
    }
}

fn user(text: &str) -> Vec<Message> {
    vec![Message::User(vec![Part::Text { content: text.to_string(), finished: true }])]
}

fn ok_tool(_: &ToolCall) -> Result<ToolOutput, String> {
    Ok(ToolOutput { response: "{\"temperature\":22}".to_string(), parts: Vec::new() })
}

#[test]
fn test_agent_simple_chat() {
    let outcome = drive(user("Hi"), DEFAULT_MAX_ITERATIONS, false, vec![text_response("Hello")], &ok_tool);
    let response = outcome.result.unwrap();

    assert_eq!(response.data.len(), 1);
    if let Message::Assistant(parts) = &response.data[0] {
        if let Part::Text { content, .. } = &parts[0] {
            assert_eq!(content, "Hello");
        } else {
            panic!("Expected text part");
        }
    } else {
        panic!("Expected assistant message");
    }
}

#[test]
fn one_function_call_then_answer() {
    let outcome = drive(
        user("Weather in Tokyo?"),
        DEFAULT_MAX_ITERATIONS,
        true,
        vec![call_response("call_1", "get_weather", "{\"location\":\"Tokyo\"}"), text_response("Sunny")],
        &ok_tool,
    );
    assert_eq!(outcome.calls.len(), 1);
    assert_eq!(outcome.calls[0].name, "get_weather");
    assert_eq!(outcome.calls[0].arguments, "{\"location\":\"Tokyo\"}");
    assert_eq!(outcome.requests, 2);
    let response = outcome.result.unwrap();
    assert_eq!(response.data.len(), 3);
    assert!(matches!(&response.data[0], Message::Assistant(p) if matches!(&p[0], Part::FunctionCall { .. })));
    match &response.data[1] {
        Message::User(parts) => {
            assert_eq!(parts.len(), 1);
            match &parts[0] {
                Part::FunctionResponse { id, name, response, finished, .. } => {
                    assert_eq!(id.as_deref(), Some("call_1"));
                    assert_eq!(name, "get_weather");
                    assert_eq!(response, "{\"temperature\":22}");
                    assert!(*finished);
                }
                other => panic!("expected a function response, got {:?}", other),
            }
        }
        other => panic!("expected a user message, got {:?}", other),
    }
    assert!(matches!(&response.data[2], Message::Assistant(_)));
    assert_eq!(response.usage.prompt_tokens, Some(10));
    assert_eq!(response.usage.completion_tokens, Some(5));
    assert_eq!(response.finish, FinishReason::Stop);
}

#[test]
fn iteration_cap_stops_after_two_requests() {
    let always_call = vec![
        call_response("a", "loop", "{}"),
        call_response("b", "loop", "{}"),
        call_response("c", "loop", "{}"),
    ];
    let outcome = drive(user("go"), 2, true, always_call, &ok_tool);
    assert_eq!(outcome.requests, 2);
    match outcome.result {
        Err(ClientError::Config(m)) => assert_eq!(m, "Max iterations reached in agent loop"),
        other => panic!("expected a configuration error, got {:?}", other),
    }
}

#[test]
fn zero_iterations_fail_before_any_request() {
    let outcome = drive(user("go"), 0, true, vec![], &ok_tool);
    assert_eq!(outcome.requests, 0);
    assert!(matches!(outcome.result, Err(ClientError::Config(_))));
}

#[test]
fn tool_failure_is_reported_to_the_model() {
    let failing = |_: &ToolCall| -> Result<ToolOutput, String> { Err("disk \"full\"".to_string()) };
    let outcome = drive(
        user("save"),
        DEFAULT_MAX_ITERATIONS,
        true,
        vec![call_response("c1", "save", "{}"), text_response("Sorry")],
        &failing,
    );
    assert_eq!(outcome.requests, 2);
    let response = outcome.result.unwrap();
    match &response.data[1] {
        Message::User(parts) => match &parts[0] {
            Part::FunctionResponse { response, parts, .. } => {
                assert_eq!(response, "{\"error\":\"disk \\\"full\\\"\"}");
                let v: serde_json::Value = serde_json::from_str(response).unwrap();
                assert!(v.get("error").is_some());
                assert!(parts.is_empty());
            }
            other => panic!("expected a function response, got {:?}", other),
        },
        other => panic!("expected a user message, got {:?}", other),
    }
}

#[test]
fn function_call_without_server_fails() {
    let outcome = drive(user("x"), DEFAULT_MAX_ITERATIONS, false, vec![call_response("c", "t", "{}")], &ok_tool);
    match outcome.result {
        Err(ClientError::Config(m)) => assert_eq!(m, "No server configured"),
        other => panic!("expected a configuration error, got {:?}", other),
    }
    assert!(outcome.calls.is_empty());
}

#[test]
fn all_calls_of_a_turn_share_one_user_message() {
    let two_calls = Response {
        data: vec![Message::Assistant(vec![
            Part::FunctionCall { id: Some("1".into()), name: "a".into(), arguments: "{}".into(), signature: None, finished: true },
            Part::FunctionCall { id: Some("2".into()), name: "b".into(), arguments: "{}".into(), signature: None, finished: true },
        ])],
        usage: Usage::default(),
        finish: FinishReason::ToolCalls,
    };
    let outcome = drive(user("x"), DEFAULT_MAX_ITERATIONS, true, vec![two_calls, text_response("done")], &ok_tool);
    assert_eq!(outcome.calls.len(), 2);
    let response = outcome.result.unwrap();
    assert_eq!(response.data.len(), 3);
    match &response.data[1] {
        Message::User(parts) => {
            assert_eq!(parts.len(), 2);
            assert!(matches!(&parts[0], Part::FunctionResponse { id: Some(i), .. } if i == "1"));
            assert!(matches!(&parts[1], Part::FunctionResponse { id: Some(i), .. } if i == "2"));
        }
        other => panic!("expected a user message, got {:?}", other),
    }
}

#[test]
fn history_grows_with_each_turn() {
    let (mut state, action) = AgentLoop::start(user("q"), Vec::new(), 5, true);
    assert!(matches!(action, AgentAction::Request));
    assert_eq!(state.history().len(), 1);
    let action = state.on_response(call_response("c", "t", "{}"));
    assert!(matches!(action, AgentAction::CallTool(_)));
    assert_eq!(state.history().len(), 2);
    let action = state.on_tool_result(ok_tool(&ToolCall { id: None, name: String::new(), arguments: String::new() }));
    assert!(matches!(action, AgentAction::Request));
    assert_eq!(state.history().len(), 3);
}

#[test]
fn same_name_gemini_calls_are_answered_in_order() {
    // Gemini calls carry no id: two calls of one tool in one turn.
    let turn = Response {
        data: vec![
            Message::Assistant(vec![part_from_gemini(&GeminiPart::FunctionCall { thought_signature: None, name: "lookup".into(), args: "{\"q\":\"first\"}".into() })]),
            Message::Assistant(vec![part_from_gemini(&GeminiPart::FunctionCall { thought_signature: None, name: "lookup".into(), args: "{\"q\":\"second\"}".into() })]),
        ],
        usage: Usage::default(),
        finish: FinishReason::Stop,
    };
    let echo = |c: &ToolCall| -> Result<ToolOutput, String> { Ok(ToolOutput { response: c.arguments.clone(), parts: Vec::new() }) };
    let outcome = drive(user("x"), DEFAULT_MAX_ITERATIONS, true, vec![turn, text_response("ok")], &echo);
    let response = outcome.result.unwrap();
    let answers = content_from_message(&response.data[2]);
    assert_eq!(answers.parts.len(), 2);
    match (&answers.parts[0], &answers.parts[1]) {
        (GeminiPart::FunctionResponse { name: n0, response: r0 }, GeminiPart::FunctionResponse { name: n1, response: r1 }) => {
            assert_eq!((n0.as_str(), n1.as_str()), ("lookup", "lookup"));
            assert_eq!(r0, "{\"q\":\"first\"}");
            assert_eq!(r1, "{\"q\":\"second\"}");
        }
        other => panic!("expected two function responses, got {:?}", other),
    }
}

#[test]
fn running_usage_adds_finished_turns() {
    let (mut state, _) = AgentLoop::start(user("q"), Vec::new(), 5, true);
    let _ = state.on_response(call_response("c", "t", "{}"));
    let _ = state.on_tool_result(ok_tool(&ToolCall { id: None, name: String::new(), arguments: String::new() }));
    let turn = Usage { prompt_tokens: Some(3), completion_tokens: Some(150) };
    let u = state.running_usage(&turn);
    assert_eq!(u.prompt_tokens, Some(13));
    assert_eq!(u.completion_tokens, Some(155));
}

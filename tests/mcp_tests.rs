use unai::mcp::{
    message_from_prompt, messages_from_prompt, offers_tool, part_from_resource, resource_messages,
    route_by_id, tag_with_server, tool_output, first_probe, next_probe, ToolProbe, MCPError, PromptContent, PromptMessage, PromptRole,
    ResourceContent, Servable, Served, ToolContent,
};
use unai::model::{MediaType, Message, Part};
use unai::tools::ToolDescriptor;

fn blob(mime: Option<&str>) -> ResourceContent {
    ResourceContent::Blob { uri: "file:///x".to_string(), mime_type: mime.map(|s| s.to_string()), blob: "QUJD".to_string() }
}

#[test]
fn resource_kinds_follow_mime_type() {
    let kind = |r: ResourceContent| match part_from_resource(&r) {
        Part::Media { media_type, mime_type, .. } => (media_type, mime_type),
        other => panic!("expected media, got {:?}", other),
    };
    assert_eq!(kind(blob(Some("image/png"))), (MediaType::Image, "image/png".to_string()));
    assert_eq!(kind(blob(Some("application/pdf"))), (MediaType::Document, "application/pdf".to_string()));
    assert_eq!(kind(blob(None)), (MediaType::Binary, "application/octet-stream".to_string()));
    let t = ResourceContent::Text { uri: "mem://a".to_string(), mime_type: None, text: "hello".to_string() };
    assert_eq!(kind(t), (MediaType::Text, "text/plain".to_string()));
}

#[test]
fn tool_output_prefers_structured_then_json_then_raw() {
    let contents = vec![
        ToolContent::Text("not json".to_string()),
        ToolContent::Image { data: "AA".to_string(), mime_type: "image/png".to_string() },
        ToolContent::Text("also \"raw\"".to_string()),
    ];
    let out = tool_output(&contents, None);
    assert_eq!(out.response, "{\"response\":[\"not json\",\"also \\\"raw\\\"\"]}");
    assert_eq!(out.parts.len(), 1);
    assert_eq!(out.parts[0].media_type, MediaType::Image);

    let with_json = vec![ToolContent::Text("{\"t\":1}".to_string()), ToolContent::Text("x".to_string())];
    assert_eq!(tool_output(&with_json, None).response, "{\"t\":1}");
    assert_eq!(tool_output(&with_json, Some("{\"s\":2}".to_string())).response, "{\"s\":2}");
    assert_eq!(tool_output(&vec![ToolContent::Other], None).response, "{}");
}

#[test]
fn prompt_messages() {
    let pms = vec![
        PromptMessage { role: PromptRole::User, content: PromptContent::Text("hi".to_string()) },
        PromptMessage { role: PromptRole::Assistant, content: PromptContent::ResourceLink { uri: "u".to_string() } },
        PromptMessage { role: PromptRole::Assistant, content: PromptContent::Text("yo".to_string()) },
    ];
    let ms = messages_from_prompt(&pms);
    assert_eq!(ms.len(), 2);
    assert!(matches!(&ms[1], Message::Assistant(p) if matches!(&p[0], Part::Text { content, .. } if content == "yo")));
    assert!(message_from_prompt(&pms[1]).is_none());
    assert!(matches!(message_from_prompt(&pms[0]), Some(Message::User(_))));
}

#[test]
fn text_resources_become_user_messages() {
    let contents = vec![
        ResourceContent::Text { uri: "mem://notes".to_string(), mime_type: None, text: "remember".to_string() },
        blob(Some("image/png")),
    ];
    let ms = resource_messages(&contents);
    assert_eq!(ms.len(), 1);
    assert!(matches!(&ms[0], Message::User(p) if matches!(&p[0], Part::Text { content, .. } if content == "Resource mem://notes:\nremember")));
}

#[test]
fn routing_by_server_id() {
    let ids = vec!["a".to_string(), "b".to_string()];
    assert!(route_by_id(&ids, &None).is_none());
    assert!(matches!(route_by_id(&ids, &Some("b".to_string())), Some(Ok(1))));
    match route_by_id(&ids, &Some("zz".to_string())) {
        Some(Err(MCPError::ServerNotFound(id))) => assert_eq!(id, "zz"),
        other => panic!("unexpected {:?}", other),
    }
    let tools = vec![ToolDescriptor { name: "echo".to_string(), description: None, input_schema: "{}".to_string() }.served(None)];
    assert!(offers_tool(&tools, "echo"));
    assert!(!offers_tool(&tools, "other"));
    let tagged = tag_with_server(tools, &"b".to_string());
    assert_eq!(tagged[0].server_id.as_deref(), Some("b"));
    assert_eq!(tagged[0].value.name, "echo");
    let s = Served::new(1u8, None);
    assert_eq!(s.value, 1);
    assert_eq!(MCPError::ServerIdMismatch.message(), "Server ID mismatch");
}

#[test]
fn probing_servers_for_a_tool() {
    let listing = |n: &str| vec![ToolDescriptor { name: n.to_string(), description: None, input_schema: "{}".to_string() }.served(None)];
    assert!(matches!(first_probe(2, "t"), ToolProbe::Ask(0)));
    assert!(matches!(first_probe(0, "t"), ToolProbe::Missing(MCPError::ToolNotFound(ref n)) if n == "t"));
    assert!(matches!(next_probe(&listing("a"), "t", 0, 2), ToolProbe::Ask(1)));
    assert!(matches!(next_probe(&listing("t"), "t", 1, 2), ToolProbe::Call(1)));
    assert!(matches!(next_probe(&listing("a"), "t", 1, 2), ToolProbe::Missing(MCPError::ToolNotFound(ref n)) if n == "t"));
}

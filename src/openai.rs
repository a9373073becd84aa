//! OpenAI Chat Completions wire format: the request body built from the
//! conversation, and the conversation parts read back from a response.
//!
//! Sampling parameters (temperature, top-p) and vendor-specific options are
//! not part of these values: they are added where the body is serialised.
use vstd::prelude::*;
use crate::json::{is_json, null_literal, null_text};
use crate::model::{copy_opt, FinishReason, MediaPart, MediaType, Message, Part, Response, Role, Usage};
use crate::stream::{finish_reason_from_wire, opt_view, spec_finish_reason, TokenCounts};
use crate::text::{starts_with, str_eq};
use crate::tools::ToolDescriptor;

verus! {

/// One element of a multi-part message content.
#[derive(Clone, Debug)]
pub enum ContentPart {
    Text { text: String },
    ImageUrl { url: String },
    File { file_data: Option<String>, file_id: Option<String>, filename: Option<String> },
}

/// Message content: plain text, or a list of parts.
#[derive(Clone, Debug)]
pub enum Content {
    Text(String),
    Parts(Vec<ContentPart>),
}

/// A function call as the wire carries it (`"type": "function"`).
#[derive(Clone, Debug)]
pub struct WireToolCall {
    pub id: String,
    pub name: String,
    pub arguments: String,
}

/// One message of a request.
#[derive(Clone, Debug)]
pub struct ChatMessage {
    pub role: String,
    pub content: Content,
    pub tool_call_id: Option<String>,
    pub tool_calls: Vec<WireToolCall>,
}

/// A tool definition of a request (`"type": "function"`).
#[derive(Clone, Debug)]
pub struct ChatTool {
    pub name: String,
    pub description: Option<String>,
    pub parameters: String,
}

/// The request body, without sampling parameters and vendor options.
#[derive(Clone, Debug)]
pub struct ChatRequest {
    pub model: String,
    pub messages: Vec<ChatMessage>,
    pub max_tokens: Option<u32>,
    pub max_completion_tokens: Option<u32>,
    pub stream: Option<bool>,
    pub include_usage: Option<bool>,
    pub tools: Vec<ChatTool>,
}

/// One choice of a non-streaming response.
#[derive(Clone, Debug)]
pub struct ChatChoice {
    pub content: Option<String>,
    pub tool_calls: Vec<WireToolCall>,
    pub finish_reason: Option<String>,
}

/// A non-streaming response body.
#[derive(Clone, Debug)]
pub struct ChatResponse {
    pub choices: Vec<ChatChoice>,
    pub usage: Option<TokenCounts>,
}

pub enum ContentPartView {
    Text(Seq<char>),
    ImageUrl(Seq<char>),
    File { file_data: Option<Seq<char>>, filename: Option<Seq<char>> },
}

pub enum ContentView {
    Text(Seq<char>),
    Parts(Seq<ContentPartView>),
}

pub struct WireCallView {
    pub id: Seq<char>,
    pub name: Seq<char>,
    pub arguments: Seq<char>,
}

pub struct ChatMessageView {
    pub role: Seq<char>,
    pub content: ContentView,
    pub tool_call_id: Option<Seq<char>>,
    pub tool_calls: Seq<WireCallView>,
}

impl View for ContentPart {
    type V = ContentPartView;

    open spec fn view(&self) -> ContentPartView {
        match self {
            ContentPart::Text { text } => ContentPartView::Text(text@),
            ContentPart::ImageUrl { url } => ContentPartView::ImageUrl(url@),
            ContentPart::File { file_data, filename, .. } => ContentPartView::File {
                file_data: opt_view(*file_data),
                filename: opt_view(*filename),
            },
        }
    }
}

pub open spec fn content_parts_view(ps: Seq<ContentPart>) -> Seq<ContentPartView> {
    Seq::new(ps.len(), |i: int| ps[i]@)
}

impl View for WireToolCall {
    type V = WireCallView;

    open spec fn view(&self) -> WireCallView {
        WireCallView { id: self.id@, name: self.name@, arguments: self.arguments@ }
    }
}

pub open spec fn wire_calls_view(cs: Seq<WireToolCall>) -> Seq<WireCallView> {
    Seq::new(cs.len(), |i: int| cs[i]@)
}

impl View for ChatMessage {
    type V = ChatMessageView;

    open spec fn view(&self) -> ChatMessageView {
        ChatMessageView {
            role: self.role@,
            content: match self.content {
                Content::Text(t) => ContentView::Text(t@),
                Content::Parts(ps) => ContentView::Parts(content_parts_view(ps@)),
            },
            tool_call_id: opt_view(self.tool_call_id),
            tool_calls: wire_calls_view(self.tool_calls@),
        }
    }
}

pub open spec fn role_name(role: Role) -> Seq<char> {
    match role {
        Role::User => "user"@,
        Role::Assistant => "assistant"@,
        Role::System => "system"@,
    }
}

/// The label that stands in the text for a media payload: its URI, or its MIME type.
pub open spec fn media_anchor(mime_type: Seq<char>, uri: Option<Seq<char>>) -> Seq<char> {
    "[Attachment: "@ + (match uri {
        Some(u) => u,
        None => mime_type,
    }) + "]"@
}

/// The note that a tool result's attached media leaves in the result text.
pub open spec fn media_note(m: MediaPart) -> Seq<char> {
    "\n"@ + media_anchor(m.mime_type@, opt_view(m.uri)) + (if m.media_type == MediaType::Image {
        "\n[Image Content]"@
    } else {
        "\n[File: "@ + m.mime_type@ + "]"@
    })
}

pub open spec fn media_notes(ms: Seq<MediaPart>) -> Seq<char>
    decreases ms.len(),
{
    if ms.len() == 0 {
        Seq::empty()
    } else {
        media_notes(ms.drop_last()) + media_note(ms.last())
    }
}

/// Text of a tool message: the JSON result (left out when it is `{}`), then
/// a note for each attached media payload.
pub open spec fn tool_result_text(response: Seq<char>, media: Seq<MediaPart>) -> Seq<char> {
    (if response == "{}"@ {
        Seq::empty()
    } else {
        response
    }) + media_notes(media)
}

/// Content elements contributed by one part.
pub open spec fn part_content(p: Part) -> Seq<ContentPartView> {
    match p {
        Part::Text { content, .. } => seq![ContentPartView::Text(content@)],
        Part::Media { media_type, data, mime_type, uri, .. } => if media_type == MediaType::Image {
            seq![
                ContentPartView::Text(media_anchor(mime_type@, opt_view(uri))),
                ContentPartView::ImageUrl("data:"@ + mime_type@ + ";base64,"@ + data@),
            ]
        } else {
            seq![
                ContentPartView::Text(media_anchor(mime_type@, opt_view(uri))),
                ContentPartView::File { file_data: Some(data@), filename: opt_view(uri) },
            ]
        },
        Part::FunctionResponse { id: Some(_), response, parts, .. } => seq![
            ContentPartView::Text(tool_result_text(response@, parts@)),
        ],
        _ => Seq::empty(),
    }
}

/// Tool calls contributed by one part: function calls that carry an id.
pub open spec fn part_wire_calls(p: Part) -> Seq<WireCallView> {
    match p {
        Part::FunctionCall { id: Some(id), name, arguments, .. } => seq![
            WireCallView { id: id@, name: name@, arguments: arguments@ },
        ],
        _ => Seq::empty(),
    }
}

pub open spec fn part_response_id(p: Part) -> Option<Seq<char>> {
    match p {
        Part::FunctionResponse { id: Some(id), .. } => Some(id@),
        _ => None,
    }
}

pub open spec fn parts_content(ps: Seq<Part>) -> Seq<ContentPartView>
    decreases ps.len(),
{
    if ps.len() == 0 {
        Seq::empty()
    } else {
        parts_content(ps.drop_last()) + part_content(ps.last())
    }
}

pub open spec fn parts_wire_calls(ps: Seq<Part>) -> Seq<WireCallView>
    decreases ps.len(),
{
    if ps.len() == 0 {
        Seq::empty()
    } else {
        parts_wire_calls(ps.drop_last()) + part_wire_calls(ps.last())
    }
}

/// The id of the last tool result among the parts, if any.
pub open spec fn parts_response_id(ps: Seq<Part>) -> Option<Seq<char>>
    decreases ps.len(),
{
    if ps.len() == 0 {
        None
    } else {
        match part_response_id(ps.last()) {
            Some(id) => Some(id),
            None => parts_response_id(ps.drop_last()),
        }
    }
}

/// A single text element is sent as plain text; no element as empty text.
pub open spec fn collapse(cs: Seq<ContentPartView>) -> ContentView {
    if cs.len() == 1 && cs[0] is Text {
        ContentView::Text(cs[0]->Text_0)
    } else if cs.len() > 0 {
        ContentView::Parts(cs)
    } else {
        ContentView::Text(Seq::empty())
    }
}

/// The wire form of one conversation message. A message that answers a tool
/// call takes the role `tool` and that call's id.
pub open spec fn encode_message(m: Message) -> ChatMessageView {
    let ps = m.spec_parts();
    ChatMessageView {
        role: if parts_response_id(ps) is Some {
            "tool"@
        } else {
            role_name(m.spec_role())
        },
        content: collapse(parts_content(ps)),
        tool_call_id: parts_response_id(ps),
        tool_calls: parts_wire_calls(ps),
    }
}

/// Instructions sent as a leading system message.
pub open spec fn system_message(text: Seq<char>) -> ChatMessageView {
    ChatMessageView {
        role: "system"@,
        content: ContentView::Text(text),
        tool_call_id: None,
        tool_calls: Seq::empty(),
    }
}

pub open spec fn messages_view(ms: Seq<ChatMessage>) -> Seq<ChatMessageView> {
    Seq::new(ms.len(), |i: int| ms[i]@)
}

/// Reasoning models (`o1…`, `o3…`) take `max_completion_tokens` instead of `max_tokens`.
pub open spec fn is_reasoning_model(model: Seq<char>) -> bool {
    (model.len() >= 2 && model.subrange(0, 2) == "o1"@) || (model.len() >= 2 && model.subrange(0, 2)
        == "o3"@)
}

fn text_of(s: &str) -> (r: String)
    ensures
        r@ == s@,
{
    String::from_str(s)
}

fn anchor_text(mime_type: &String, uri: &Option<String>) -> (r: String)
    ensures
        r@ == media_anchor(mime_type@, opt_view(*uri)),
{
    let mut r = text_of("[Attachment: ");
    match uri {
        Some(u) => r.append(u.as_str()),
        None => r.append(mime_type.as_str()),
    }
    r.append("]");
    r
}

fn append_media_note(text: &mut String, m: &MediaPart)
    ensures
        final(text)@ == old(text)@ + media_note(*m),
{
    text.append("\n");
    let anchor = anchor_text(&m.mime_type, &m.uri);
    text.append(anchor.as_str());
    match m.media_type {
        MediaType::Image => text.append("\n[Image Content]"),
        _ => {
            text.append("\n[File: ");
            text.append(m.mime_type.as_str());
            text.append("]");
        },
    }
    assert(final(text)@ =~= old(text)@ + media_note(*m));
}

fn tool_result_content(response: &String, media: &Vec<MediaPart>) -> (r: String)
    ensures
        r@ == tool_result_text(response@, media@),
{
    let mut r = String::new();
    proof {
        reveal_strlit("{}");
    }
    if !str_eq(response.as_str(), "{}") {
        r.append(response.as_str());
    }
    assert(r@ =~= (if response@ == "{}"@ { Seq::empty() } else { response@ }));
    let ghost head = r@;
    let mut i: usize = 0;
    while i < media.len()
        invariant
            i <= media@.len(),
            r@ == head + media_notes(media@.take(i as int)),
        decreases media@.len() - i,
    {
        append_media_note(&mut r, &media[i]);
        proof {
            assert(media@.take(i + 1).drop_last() =~= media@.take(i as int));
        }
        i = i + 1;
    }
    assert(media@.take(media@.len() as int) =~= media@);
    r
}

fn push_part_content(p: &Part, out: &mut Vec<ContentPart>)
    ensures
        content_parts_view(final(out)@) == content_parts_view(old(out)@) + part_content(*p),
{
    let ghost before = out@;
    match p {
        Part::Text { content, .. } => {
            out.push(ContentPart::Text { text: content.clone() });
        },
        Part::Media { media_type, data, mime_type, uri, .. } => {
            out.push(ContentPart::Text { text: anchor_text(mime_type, uri) });
            match media_type {
                MediaType::Image => {
                    let mut url = text_of("data:");
                    url.append(mime_type.as_str());
                    url.append(";base64,");
                    url.append(data.as_str());
                    out.push(ContentPart::ImageUrl { url });
                },
                _ => {
                    out.push(
                        ContentPart::File {
                            file_data: Some(data.clone()),
                            file_id: None,
                            filename: copy_opt(uri),
                        },
                    );
                },
            }
        },
        Part::FunctionResponse { id: Some(_), response, parts, .. } => {
            out.push(ContentPart::Text { text: tool_result_content(response, parts) });
        },
        _ => {},
    }
    assert(content_parts_view(out@) =~= content_parts_view(before) + part_content(*p));
}

/// The wire form of one conversation message.
pub fn encode_message_to_wire(m: &Message) -> (r: ChatMessage)
    ensures
        r@ == encode_message(*m),
{
    let parts = m.parts();
    let mut content: Vec<ContentPart> = Vec::new();
    let mut calls: Vec<WireToolCall> = Vec::new();
    let mut response_id: Option<String> = None;
    let mut j: usize = 0;
    while j < parts.len()
        invariant
            parts@ == m.spec_parts(),
            j <= parts@.len(),
            content_parts_view(content@) == parts_content(parts@.take(j as int)),
            wire_calls_view(calls@) == parts_wire_calls(parts@.take(j as int)),
            opt_view(response_id) == parts_response_id(parts@.take(j as int)),
        decreases parts@.len() - j,
    {
        let p = &parts[j];
        push_part_content(p, &mut content);
        let ghost calls_before = calls@;
        match p {
            Part::FunctionCall { id: Some(id), name, arguments, .. } => {
                calls.push(
                    WireToolCall { id: id.clone(), name: name.clone(), arguments: arguments.clone() },
                );
            },
            Part::FunctionResponse { id: Some(id), .. } => {
                response_id = Some(id.clone());
            },
            _ => {},
        }
        proof {
            let t = parts@.take(j + 1);
            assert(t.drop_last() =~= parts@.take(j as int));
            assert(t.last() == parts@[j as int]);
            assert(wire_calls_view(calls@) =~= wire_calls_view(calls_before) + part_wire_calls(
                parts@[j as int],
            ));
        }
        j = j + 1;
    }
    proof {
        assert(parts@.take(parts@.len() as int) =~= parts@);
    }
    let role = if response_id.is_some() {
        text_of("tool")
    } else {
        match m.role() {
            Role::User => text_of("user"),
            Role::Assistant => text_of("assistant"),
            Role::System => text_of("system"),
        }
    };
    let body = if content.len() == 1 && match &content[0] {
        ContentPart::Text { .. } => true,
        _ => false,
    } {
        match &content[0] {
            ContentPart::Text { text } => Content::Text(text.clone()),
            _ => Content::Text(String::new()),
        }
    } else if content.len() > 0 {
        Content::Parts(content)
    } else {
        Content::Text(String::new())
    };
    ChatMessage { role, content: body, tool_call_id: response_id, tool_calls: calls }
}

fn tool_to_wire(t: &ToolDescriptor) -> (r: ChatTool)
    ensures
        r.name@ == t.name@,
        opt_view(r.description) == opt_view(t.description),
        r.parameters@ == t.input_schema@,
{
    ChatTool {
        name: t.name.clone(),
        description: copy_opt(&t.description),
        parameters: t.input_schema.clone(),
    }
}

/// Builds the request body: the instructions as a leading system message,
/// then every conversation message in order, the tool definitions, and the
/// token limit under the name the model family expects.
pub fn build_chat_request(
    messages: &Vec<Message>,
    system: &Option<String>,
    model: &String,
    max_tokens: Option<u32>,
    tools: &Vec<ToolDescriptor>,
    stream: bool,
) -> (r: ChatRequest)
    ensures
        r.model@ == model@,
        messages_view(r.messages@) == (match system {
            Some(s) => seq![system_message(s@)],
            None => Seq::empty(),
        }) + Seq::new(messages@.len(), |i: int| encode_message(messages@[i])),
        r.tools@.len() == tools@.len(),
        forall|i: int|
            0 <= i < tools@.len() ==> (#[trigger] r.tools@[i]).name@ == tools@[i].name@
                && opt_view(r.tools@[i].description) == opt_view(tools@[i].description)
                && r.tools@[i].parameters@ == tools@[i].input_schema@,
        is_reasoning_model(model@) ==> r.max_tokens is None && r.max_completion_tokens
            == max_tokens,
        !is_reasoning_model(model@) ==> r.max_tokens == max_tokens && r.max_completion_tokens is None,
        stream ==> r.stream == Some(true) && r.include_usage == Some(true),
        !stream ==> r.stream is None && r.include_usage is None,
{
    let mut out: Vec<ChatMessage> = Vec::new();
    if let Some(s) = system {
        out.push(
            ChatMessage {
                role: text_of("system"),
                content: Content::Text(s.clone()),
                tool_call_id: None,
                tool_calls: Vec::new(),
            },
        );
        assert(out@[0]@.tool_calls =~= Seq::<WireCallView>::empty());
        assert(out@[0]@ == system_message(s@));
    }
    let ghost head = messages_view(out@);
    assert(head =~= (match system {
        Some(s) => seq![system_message(s@)],
        None => Seq::empty(),
    }));
    let ghost h = out@.len();
    let mut i: usize = 0;
    while i < messages.len()
        invariant
            i <= messages@.len(),
            h == head.len(),
            out@.len() == h + i,
            forall|k: int| 0 <= k < h ==> (#[trigger] out@[k])@ == head[k],
            forall|k: int| 0 <= k < i ==> (#[trigger] out@[h + k])@ == encode_message(messages@[k]),
        decreases messages@.len() - i,
    {
        out.push(encode_message_to_wire(&messages[i]));
        i = i + 1;
    }
    assert(messages_view(out@) =~= head + Seq::new(
        messages@.len(),
        |k: int| encode_message(messages@[k]),
    )) by {
        assert forall|k: int| h <= k < out@.len() implies (#[trigger] out@[k])@ == encode_message(
            messages@[k - h],
        ) by {
            assert(out@[h + (k - h)] == out@[k]);
        }
    }
    let mut wire_tools: Vec<ChatTool> = Vec::new();
    let mut k: usize = 0;
    while k < tools.len()
        invariant
            k <= tools@.len(),
            wire_tools@.len() == k,
            forall|j: int|
                0 <= j < k ==> (#[trigger] wire_tools@[j]).name@ == tools@[j].name@
                    && opt_view(wire_tools@[j].description) == opt_view(tools@[j].description)
                    && wire_tools@[j].parameters@ == tools@[j].input_schema@,
        decreases tools@.len() - k,
    {
        wire_tools.push(tool_to_wire(&tools[k]));
        k = k + 1;
    }
    proof {
        reveal_strlit("o1");
        reveal_strlit("o3");
    }
    let reasoning = starts_with(model.as_str(), "o1") || starts_with(model.as_str(), "o3");
    let (mt, mct) = if reasoning {
        (None, max_tokens)
    } else {
        (max_tokens, None)
    };
    ChatRequest {
        model: model.clone(),
        messages: out,
        max_tokens: mt,
        max_completion_tokens: mct,
        stream: if stream {
            Some(true)
        } else {
            None
        },
        include_usage: if stream {
            Some(true)
        } else {
            None
        },
        tools: wire_tools,
    }
}

/// Function-call arguments read back: the text when it is JSON, `null` otherwise.
pub open spec fn decoded_arguments(a: Seq<char>) -> Seq<char> {
    if is_json(a) {
        a
    } else {
        null_literal()
    }
}

/// `p` is the function-call part read back from the wire call `c`.
pub open spec fn decodes_call(p: Part, c: WireToolCall) -> bool {
    match p {
        Part::FunctionCall { id: Some(i), name, arguments, signature: None, finished: true } => i@
            == c.id@ && name@ == c.name@ && arguments@ == decoded_arguments(c.arguments@),
        _ => false,
    }
}

/// `ps` are the parts read back from a message's text and tool calls: the
/// text as one finished text part, then one finished function call per wire call.
pub open spec fn decodes_parts(ps: Seq<Part>, text: Option<String>, calls: Seq<WireToolCall>) -> bool {
    let k: int = if text is Some {
        1
    } else {
        0
    };
    &&& ps.len() == k + calls.len()
    &&& (text matches Some(t) ==> ps[0] == (Part::Text { content: t, finished: true }))
    &&& forall|i: int| 0 <= i < calls.len() ==> #[trigger] decodes_call(ps[k + i], calls[i])
}

fn call_from_wire(c: &WireToolCall) -> (r: Part)
    ensures
        decodes_call(r, *c),
{
    let arguments = if crate::json::json_is_valid(c.arguments.as_str()) {
        c.arguments.clone()
    } else {
        null_text()
    };
    Part::FunctionCall {
        id: Some(c.id.clone()),
        name: c.name.clone(),
        arguments,
        signature: None,
        finished: true,
    }
}

/// Conversation parts of a message body: its text, then its function calls.
pub fn parts_from_wire(text: &Option<String>, calls: &Vec<WireToolCall>) -> (r: Vec<Part>)
    ensures
        decodes_parts(r@, *text, calls@),
{
    let mut parts: Vec<Part> = Vec::new();
    if let Some(t) = text {
        parts.push(Part::Text { content: t.clone(), finished: true });
    }
    let ghost k: int = if text is Some {
        1
    } else {
        0
    };
    let mut i: usize = 0;
    while i < calls.len()
        invariant
            i <= calls@.len(),
            k == (if text is Some {
                1int
            } else {
                0
            }),
            parts@.len() == k + i,
            *text matches Some(t) ==> parts@[0] == (Part::Text { content: t, finished: true }),
            forall|j: int| 0 <= j < i ==> #[trigger] decodes_call(parts@[k + j], calls@[j]),
        decreases calls@.len() - i,
    {
        parts.push(call_from_wire(&calls[i]));
        proof {
            assert forall|j: int| 0 <= j < i + 1 implies #[trigger] decodes_call(
                parts@[k + j],
                calls@[j],
            ) by {}
        }
        i = i + 1;
    }
    parts
}

pub open spec fn usage_from_wire(u: Option<TokenCounts>) -> Usage {
    match u {
        Some(c) => Usage {
            prompt_tokens: Some(c.prompt_tokens),
            completion_tokens: Some(c.completion_tokens),
        },
        None => Usage { prompt_tokens: None, completion_tokens: None },
    }
}

/// Reads a non-streaming response: one assistant message built from the first
/// choice, its finish reason (a normal stop when absent), and the usage.
pub fn response_from_wire(resp: &ChatResponse) -> (r: Response)
    ensures
        r.data@.len() == 1,
        r.data@[0] is Assistant,
        r.usage == usage_from_wire(resp.usage),
        resp.choices@.len() > 0 ==> decodes_parts(
            r.data@[0].spec_parts(),
            resp.choices@[0].content,
            resp.choices@[0].tool_calls@,
        ) && r.finish == match resp.choices@[0].finish_reason {
            Some(f) => spec_finish_reason(f@),
            None => FinishReason::Stop,
        },
        resp.choices@.len() == 0 ==> r.data@[0].spec_parts().len() == 0 && r.finish
            == FinishReason::Stop,
{
    let (parts, finish) = if resp.choices.len() > 0 {
        let choice = &resp.choices[0];
        let finish = match &choice.finish_reason {
            Some(f) => finish_reason_from_wire(f.as_str()),
            None => FinishReason::Stop,
        };
        (parts_from_wire(&choice.content, &choice.tool_calls), finish)
    } else {
        (Vec::new(), FinishReason::Stop)
    };
    let usage = match resp.usage {
        Some(c) => Usage {
            prompt_tokens: Some(c.prompt_tokens),
            completion_tokens: Some(c.completion_tokens),
        },
        None => Usage::empty(),
    };
    let mut data: Vec<Message> = Vec::new();
    data.push(Message::Assistant(parts));
    Response { data, usage, finish }
}

pub open spec fn role_from_name(name: Seq<char>) -> Role {
    if name == "user"@ || name == "tool"@ {
        Role::User
    } else if name == "system"@ {
        Role::System
    } else {
        Role::Assistant
    }
}

/// The text a wire message contributes: plain text, unless it is empty beside
/// tool calls; for multi-part content, none.
pub open spec fn wire_text(m: ChatMessage) -> Option<String> {
    match m.content {
        Content::Text(t) => if t@.len() == 0 && m.tool_calls@.len() > 0 {
            None
        } else {
            Some(t)
        },
        Content::Parts(_) => None,
    }
}

/// Reads a wire message back into a conversation message: role by name
/// (`tool` results are user messages), text and function calls as parts.
pub fn message_from_wire(m: &ChatMessage) -> (r: Message)
    ensures
        r.spec_role() == role_from_name(m.role@),
        decodes_parts(r.spec_parts(), wire_text(*m), m.tool_calls@),
{
    let text = match &m.content {
        Content::Text(t) => if t.unicode_len() == 0 && m.tool_calls.len() > 0 {
            None
        } else {
            Some(t.clone())
        },
        Content::Parts(_) => None,
    };
    let parts = parts_from_wire(&text, &m.tool_calls);
    proof {
        reveal_strlit("user");
        reveal_strlit("tool");
        reveal_strlit("system");
    }
    let role = if str_eq(m.role.as_str(), "user") || str_eq(m.role.as_str(), "tool") {
        Role::User
    } else if str_eq(m.role.as_str(), "system") {
        Role::System
    } else {
        Role::Assistant
    };
    Message::with_role(role, parts)
}

/// Text survives the OpenAI mapping: a user message holding one finished text
/// part, encoded for the wire and read back, is a user message holding one
/// finished text part with exactly that text.
pub proof fn lemma_user_text_round_trip(m: Message, wire: ChatMessage, back: Message)
    requires
        m is User,
        m.spec_parts().len() == 1,
        m.spec_parts()[0] is Text,
        m.spec_parts()[0]->Text_finished,
        wire@ == encode_message(m),
        back.spec_role() == role_from_name(wire.role@),
        decodes_parts(back.spec_parts(), wire_text(wire), wire.tool_calls@),
    ensures
        back.spec_role() == Role::User,
        back.spec_parts().len() == 1,
        back.spec_parts()[0] is Text,
        back.spec_parts()[0]->Text_content@ == m.spec_parts()[0]->Text_content@,
        back.spec_parts()[0]->Text_finished,
{
    let ps = m.spec_parts();
    assert(ps.drop_last().len() == 0);
    assert(parts_response_id(ps.drop_last()) is None);
    assert(parts_wire_calls(ps.drop_last()) =~= Seq::<WireCallView>::empty());
    assert(parts_content(ps.drop_last()) =~= Seq::<ContentPartView>::empty());
    assert(parts_response_id(ps) is None);
    assert(parts_wire_calls(ps) =~= Seq::<WireCallView>::empty());
    assert(parts_content(ps) =~= part_content(ps[0]));
    assert(wire.tool_calls@.len() == 0);
    reveal_strlit("user");
}

} // verus!

//! Tool-server (MCP) data as the library sees it: descriptors tagged with
//! their server, resource and prompt contents turned into conversation parts,
//! tool results assembled into a JSON response, and routing across servers.
use vstd::prelude::*;
use crate::agent::ToolOutput;
use crate::json::{empty_object, empty_object_text, is_json, json_is_valid, json_string_literal, quote};
use crate::model::{MediaPart, MediaType, Message, Part, Role};
use crate::stream::opt_view;
use crate::text::{starts_with, str_eq};
use crate::tools::ToolDescriptor;

verus! {

/// Errors of tool-server operations.
#[derive(Clone, Debug)]
pub enum MCPError {
    Mcp(String),
    ToolNotFound(String),
    PromptNotFound(String),
    ResourceNotFound(String),
    ServerNotFound(String),
    ServerIdMismatch,
}

impl MCPError {
    pub open spec fn spec_message(&self) -> Seq<char> {
        match self {
            MCPError::Mcp(m) => "MCP error: "@ + m@,
            MCPError::ToolNotFound(m) => "Tool not found: "@ + m@,
            MCPError::PromptNotFound(m) => "Prompt not found: "@ + m@,
            MCPError::ResourceNotFound(m) => "Resource not found: "@ + m@,
            MCPError::ServerNotFound(m) => "Server not found: "@ + m@,
            MCPError::ServerIdMismatch => "Server ID mismatch"@,
        }
    }

    /// The error's display text.
    pub fn message(&self) -> (r: String)
        ensures
            r@ == self.spec_message(),
    {
        let (prefix, detail) = match self {
            MCPError::Mcp(m) => ("MCP error: ", m.as_str()),
            MCPError::ToolNotFound(m) => ("Tool not found: ", m.as_str()),
            MCPError::PromptNotFound(m) => ("Prompt not found: ", m.as_str()),
            MCPError::ResourceNotFound(m) => ("Resource not found: ", m.as_str()),
            MCPError::ServerNotFound(m) => ("Server not found: ", m.as_str()),
            MCPError::ServerIdMismatch => ("Server ID mismatch", ""),
        };
        let mut r = String::from_str(prefix);
        r.append(detail);
        proof {
            reveal_strlit("");
        }
        assert(r@ =~= self.spec_message());
        r
    }
}

/// A value tagged with the id of the server that provided it.
#[derive(Clone, Debug)]
pub struct Served<T> {
    pub value: T,
    pub server_id: Option<String>,
}

impl<T> Served<T> {
    pub fn new(value: T, server_id: Option<String>) -> (r: Served<T>)
        ensures
            r.value == value,
            r.server_id == server_id,
    {
        Served { value, server_id }
    }
}

/// Values that can be tagged with their server.
pub trait Servable: Sized {
    fn served(self, id: Option<String>) -> (r: Served<Self>)
        ensures
            r.value == self,
            r.server_id == id,
    {
        Served::new(self, id)
    }
}

/// A prompt a server offers.
#[derive(Clone, Debug)]
pub struct PromptDescriptor {
    pub name: String,
    pub description: Option<String>,
}

/// A resource a server offers.
#[derive(Clone, Debug)]
pub struct ResourceDescriptor {
    pub uri: String,
    pub name: String,
    pub mime_type: Option<String>,
}

impl Servable for ToolDescriptor {}

impl Servable for PromptDescriptor {}

impl Servable for ResourceDescriptor {}

/// Contents of a resource: text, or base64 binary data.
#[derive(Clone, Debug)]
pub enum ResourceContent {
    Text { uri: String, mime_type: Option<String>, text: String },
    Blob { uri: String, mime_type: Option<String>, blob: String },
}

/// One content item of a tool result.
#[derive(Clone, Debug)]
pub enum ToolContent {
    Text(String),
    Image { data: String, mime_type: String },
    Resource(ResourceContent),
    Other,
}

#[derive(Clone, Copy, Debug, PartialEq, Eq, Structural)]
pub enum PromptRole {
    User,
    Assistant,
}

/// Content of one prompt message.
#[derive(Clone, Debug)]
pub enum PromptContent {
    Text(String),
    Image { data: String, mime_type: String },
    Resource(ResourceContent),
    ResourceLink { uri: String },
}

#[derive(Clone, Debug)]
pub struct PromptMessage {
    pub role: PromptRole,
    pub content: PromptContent,
}

/// Media kind by MIME type: images, PDF documents, anything else binary.
pub open spec fn media_kind(mime: Seq<char>) -> MediaType {
    if mime.len() >= 6 && mime.subrange(0, 6) == "image/"@ {
        MediaType::Image
    } else if mime == "application/pdf"@ {
        MediaType::Document
    } else {
        MediaType::Binary
    }
}

/// `m` is the media payload of resource contents `r`: text resources are text
/// media (`text/plain` when untyped), blobs are typed by MIME type
/// (`application/octet-stream` when untyped).
pub open spec fn media_of_resource(m: MediaPart, r: ResourceContent) -> bool {
    &&& m.finished
    &&& match r {
        ResourceContent::Text { uri, mime_type, text } => {
            &&& m.media_type == MediaType::Text
            &&& m.data@ == text@
            &&& m.mime_type@ == match mime_type {
                Some(t) => t@,
                None => "text/plain"@,
            }
            &&& opt_view(m.uri) == Some(uri@)
        },
        ResourceContent::Blob { uri, mime_type, blob } => {
            let mime = match mime_type {
                Some(t) => t@,
                None => "application/octet-stream"@,
            };
            &&& m.media_type == media_kind(mime)
            &&& m.data@ == blob@
            &&& m.mime_type@ == mime
            &&& opt_view(m.uri) == Some(uri@)
        },
    }
}

fn media_type_of(mime: &String) -> (r: MediaType)
    ensures
        r == media_kind(mime@),
{
    proof {
        reveal_strlit("image/");
    }
    if starts_with(mime.as_str(), "image/") {
        MediaType::Image
    } else if str_eq(mime.as_str(), "application/pdf") {
        MediaType::Document
    } else {
        MediaType::Binary
    }
}

/// The media payload of resource contents.
pub fn media_from_resource(r: &ResourceContent) -> (m: MediaPart)
    ensures
        media_of_resource(m, *r),
{
    match r {
        ResourceContent::Text { uri, mime_type, text } => MediaPart {
            media_type: MediaType::Text,
            data: text.clone(),
            mime_type: match mime_type {
                Some(t) => t.clone(),
                None => String::from_str("text/plain"),
            },
            uri: Some(uri.clone()),
            finished: true,
        },
        ResourceContent::Blob { uri, mime_type, blob } => {
            let mime = match mime_type {
                Some(t) => t.clone(),
                None => String::from_str("application/octet-stream"),
            };
            MediaPart {
                media_type: media_type_of(&mime),
                data: blob.clone(),
                mime_type: mime,
                uri: Some(uri.clone()),
                finished: true,
            }
        },
    }
}

/// A media part from a media payload.
pub fn media_part(m: MediaPart) -> (r: Part)
    ensures
        r == (Part::Media {
            media_type: m.media_type,
            data: m.data,
            mime_type: m.mime_type,
            uri: m.uri,
            finished: m.finished,
        }),
{
    Part::Media {
        media_type: m.media_type,
        data: m.data,
        mime_type: m.mime_type,
        uri: m.uri,
        finished: m.finished,
    }
}

/// The conversation part for resource contents.
pub fn part_from_resource(r: &ResourceContent) -> (p: Part)
    ensures
        exists|m: MediaPart|
            media_of_resource(m, *r) && p == (Part::Media {
                media_type: m.media_type,
                data: m.data,
                mime_type: m.mime_type,
                uri: m.uri,
                finished: m.finished,
            }),
{
    let m = media_from_resource(r);
    let ghost g = m;
    let p = media_part(m);
    assert(media_of_resource(g, *r));
    p
}

/// Items of a JSON array of strings, joined with commas.
pub open spec fn string_items(ts: Seq<Seq<char>>) -> Seq<char>
    decreases ts.len(),
{
    if ts.len() == 0 {
        Seq::empty()
    } else if ts.len() == 1 {
        json_string_literal(ts[0])
    } else {
        string_items(ts.drop_last()) + ","@ + json_string_literal(ts.last())
    }
}

/// `{"response":["<t1>",...]}`: raw tool text wrapped as JSON.
pub open spec fn raw_text_response(ts: Seq<Seq<char>>) -> Seq<char> {
    "{\"response\":["@ + string_items(ts) + "]}"@
}

/// Text items of a tool result that are JSON, and those that are not.
pub open spec fn json_texts(cs: Seq<ToolContent>) -> Seq<Seq<char>>
    decreases cs.len(),
{
    if cs.len() == 0 {
        Seq::empty()
    } else {
        json_texts(cs.drop_last()) + match cs.last() {
            ToolContent::Text(t) => if is_json(t@) {
                seq![t@]
            } else {
                Seq::empty()
            },
            _ => Seq::empty(),
        }
    }
}

pub open spec fn raw_texts(cs: Seq<ToolContent>) -> Seq<Seq<char>>
    decreases cs.len(),
{
    if cs.len() == 0 {
        Seq::empty()
    } else {
        raw_texts(cs.drop_last()) + match cs.last() {
            ToolContent::Text(t) => if is_json(t@) {
                Seq::empty()
            } else {
                seq![t@]
            },
            _ => Seq::empty(),
        }
    }
}

/// The JSON result of a tool call: its structured content when present, else
/// the last text item that is JSON, else the other text items wrapped as
/// `{"response": [...]}`, else `{}`.
pub open spec fn tool_response(cs: Seq<ToolContent>, structured: Option<Seq<char>>) -> Seq<char> {
    match structured {
        Some(s) => s,
        None => if json_texts(cs).len() > 0 {
            json_texts(cs).last()
        } else if raw_texts(cs).len() > 0 {
            raw_text_response(raw_texts(cs))
        } else {
            empty_object()
        },
    }
}

/// `m` is the media payload of tool content `c`.
pub open spec fn media_of_content(m: MediaPart, c: ToolContent) -> bool {
    match c {
        ToolContent::Image { data, mime_type } => m == MediaPart {
            media_type: MediaType::Image,
            data,
            mime_type,
            uri: None,
            finished: true,
        },
        ToolContent::Resource(r) => media_of_resource(m, r),
        _ => false,
    }
}

pub open spec fn has_media(c: ToolContent) -> bool {
    c is Image || c is Resource
}

/// Media payloads of a tool result, in order.
pub open spec fn media_contents(cs: Seq<ToolContent>) -> Seq<ToolContent>
    decreases cs.len(),
{
    if cs.len() == 0 {
        Seq::empty()
    } else {
        media_contents(cs.drop_last()) + if has_media(cs.last()) {
            seq![cs.last()]
        } else {
            Seq::empty()
        }
    }
}

fn raw_response_text(raw: &Vec<String>) -> (r: String)
    ensures
        r@ == raw_text_response(Seq::new(raw@.len(), |i: int| raw@[i]@)),
{
    let ghost ts = Seq::new(raw@.len(), |i: int| raw@[i]@);
    let mut items = String::new();
    let mut i: usize = 0;
    while i < raw.len()
        invariant
            i <= raw@.len(),
            ts == Seq::new(raw@.len(), |i: int| raw@[i]@),
            items@ == string_items(ts.take(i as int)),
        decreases raw@.len() - i,
    {
        proof {
            assert(ts.take(i + 1).drop_last() =~= ts.take(i as int));
        }
        if i > 0 {
            items.append(",");
        }
        let q = quote(raw[i].as_str());
        items.append(q.as_str());
        proof {
            if i == 0 {
                assert(items@ =~= string_items(ts.take(1)));
            } else {
                assert(items@ =~= string_items(ts.take(i + 1)));
            }
        }
        i = i + 1;
    }
    assert(ts.take(raw@.len() as int) =~= ts);
    let mut r = String::from_str("{\"response\":[");
    r.append(items.as_str());
    r.append("]}");
    r
}

/// Assembles the outcome of a tool call from its content items and optional
/// structured content (JSON text).
pub fn tool_output(contents: &Vec<ToolContent>, structured: Option<String>) -> (r: ToolOutput)
    ensures
        r.response@ == tool_response(contents@, opt_view(structured)),
        r.parts@.len() == media_contents(contents@).len(),
        forall|i: int|
            0 <= i < r.parts@.len() ==> #[trigger] media_of_content(
                r.parts@[i],
                media_contents(contents@)[i],
            ),
{
    let mut parts: Vec<MediaPart> = Vec::new();
    let mut parsed: Option<String> = None;
    let mut raw: Vec<String> = Vec::new();
    let mut i: usize = 0;
    while i < contents.len()
        invariant
            i <= contents@.len(),
            Seq::new(raw@.len(), |k: int| raw@[k]@) == raw_texts(contents@.take(i as int)),
            json_texts(contents@.take(i as int)).len() == 0 ==> parsed is None,
            json_texts(contents@.take(i as int)).len() > 0 ==> (parsed matches Some(p) && p@
                == json_texts(contents@.take(i as int)).last()),
            parts@.len() == media_contents(contents@.take(i as int)).len(),
            forall|k: int|
                0 <= k < parts@.len() ==> #[trigger] media_of_content(
                    parts@[k],
                    media_contents(contents@.take(i as int))[k],
                ),
        decreases contents@.len() - i,
    {
        let ghost raw_before = raw@;
        let ghost pre = contents@.take(i as int);
        proof {
            assert(contents@.take(i + 1).drop_last() =~= pre);
            assert(contents@.take(i + 1).last() == contents@[i as int]);
        }
        match &contents[i] {
            ToolContent::Text(t) => {
                if json_is_valid(t.as_str()) {
                    parsed = Some(t.clone());
                } else {
                    raw.push(t.clone());
                }
            },
            ToolContent::Image { data, mime_type } => {
                parts.push(
                    MediaPart {
                        media_type: MediaType::Image,
                        data: data.clone(),
                        mime_type: mime_type.clone(),
                        uri: None,
                        finished: true,
                    },
                );
            },
            ToolContent::Resource(res) => {
                parts.push(media_from_resource(res));
            },
            ToolContent::Other => {},
        }
        proof {
            assert(Seq::new(raw@.len(), |k: int| raw@[k]@) =~= raw_texts(contents@.take(i + 1)));
        }
        i = i + 1;
    }
    assert(contents@.take(contents@.len() as int) =~= contents@);
    let response = match structured {
        Some(s) => s,
        None => match parsed {
            Some(p) => p,
            None => if raw.len() > 0 {
                raw_response_text(&raw)
            } else {
                empty_object_text()
            },
        },
    };
    ToolOutput { response, parts }
}

/// The message a prompt message becomes; resource links have no conversation form.
pub fn message_from_prompt(pm: &PromptMessage) -> (r: Option<Message>)
    ensures
        pm.content is ResourceLink <==> r is None,
        r matches Some(m) ==> m.spec_role() == (match pm.role {
            PromptRole::User => Role::User,
            PromptRole::Assistant => Role::Assistant,
        }) && m.spec_parts().len() == 1 && match pm.content {
            PromptContent::Text(t) => m.spec_parts()[0] == (Part::Text { content: t, finished: true }),
            PromptContent::Image { data, mime_type } => m.spec_parts()[0] == (Part::Media {
                media_type: MediaType::Image,
                data,
                mime_type,
                uri: None,
                finished: true,
            }),
            PromptContent::Resource(res) => exists|x: MediaPart|
                media_of_resource(x, res) && m.spec_parts()[0] == (Part::Media {
                    media_type: x.media_type,
                    data: x.data,
                    mime_type: x.mime_type,
                    uri: x.uri,
                    finished: x.finished,
                }),
            PromptContent::ResourceLink { .. } => false,
        },
{
    let part = match &pm.content {
        PromptContent::Text(t) => Part::Text { content: t.clone(), finished: true },
        PromptContent::Image { data, mime_type } => Part::Media {
            media_type: MediaType::Image,
            data: data.clone(),
            mime_type: mime_type.clone(),
            uri: None,
            finished: true,
        },
        PromptContent::Resource(res) => part_from_resource(res),
        PromptContent::ResourceLink { .. } => {
            return None;
        },
    };
    let role = match pm.role {
        PromptRole::User => Role::User,
        PromptRole::Assistant => Role::Assistant,
    };
    let mut parts: Vec<Part> = Vec::new();
    parts.push(part);
    Some(Message::with_role(role, parts))
}

/// Text prompt messages, in order, as (role, text).
pub open spec fn prompt_texts(pms: Seq<PromptMessage>) -> Seq<(Role, Seq<char>)>
    decreases pms.len(),
{
    if pms.len() == 0 {
        Seq::empty()
    } else {
        prompt_texts(pms.drop_last()) + match pms.last().content {
            PromptContent::Text(t) => seq![
                (match pms.last().role {
                    PromptRole::User => Role::User,
                    PromptRole::Assistant => Role::Assistant,
                }, t@),
            ],
            _ => Seq::empty(),
        }
    }
}

/// The conversation that a prompt stands for: one message per text prompt
/// message, holding that text; other contents are left out.
pub fn messages_from_prompt(pms: &Vec<PromptMessage>) -> (r: Vec<Message>)
    ensures
        r@.len() == prompt_texts(pms@).len(),
        forall|i: int|
            0 <= i < r@.len() ==> (#[trigger] r@[i]).spec_role() == prompt_texts(pms@)[i].0
                && r@[i].spec_parts().len() == 1 && r@[i].spec_parts()[0] is Text
                && r@[i].spec_parts()[0]->Text_content@ == prompt_texts(pms@)[i].1
                && r@[i].spec_parts()[0]->Text_finished,
{
    let mut out: Vec<Message> = Vec::new();
    let mut i: usize = 0;
    while i < pms.len()
        invariant
            i <= pms@.len(),
            out@.len() == prompt_texts(pms@.take(i as int)).len(),
            forall|k: int|
                0 <= k < out@.len() ==> (#[trigger] out@[k]).spec_role() == prompt_texts(
                    pms@.take(i as int),
                )[k].0 && out@[k].spec_parts().len() == 1 && out@[k].spec_parts()[0] is Text
                    && out@[k].spec_parts()[0]->Text_content@ == prompt_texts(pms@.take(i as int))[k].1
                    && out@[k].spec_parts()[0]->Text_finished,
        decreases pms@.len() - i,
    {
        proof {
            assert(pms@.take(i + 1).drop_last() =~= pms@.take(i as int));
        }
        let pm = &pms[i];
        match &pm.content {
            PromptContent::Text(t) => {
                let role = match pm.role {
                    PromptRole::User => Role::User,
                    PromptRole::Assistant => Role::Assistant,
                };
                let mut parts: Vec<Part> = Vec::new();
                parts.push(Part::Text { content: t.clone(), finished: true });
                out.push(Message::with_role(role, parts));
            },
            _ => {},
        }
        i = i + 1;
    }
    assert(pms@.take(pms@.len() as int) =~= pms@);
    out
}

/// Text resources, in order, as (uri, text).
pub open spec fn text_resources(cs: Seq<ResourceContent>) -> Seq<(Seq<char>, Seq<char>)>
    decreases cs.len(),
{
    if cs.len() == 0 {
        Seq::empty()
    } else {
        text_resources(cs.drop_last()) + match cs.last() {
            ResourceContent::Text { uri, text, .. } => seq![(uri@, text@)],
            _ => Seq::empty(),
        }
    }
}

/// The user message that carries one text resource into the conversation.
pub open spec fn resource_text(uri: Seq<char>, text: Seq<char>) -> Seq<char> {
    "Resource "@ + uri + ":\n"@ + text
}

/// Resource contents as conversation messages: each text resource becomes a
/// user message `Resource <uri>:\n<text>`; binary resources are left out.
pub fn resource_messages(contents: &Vec<ResourceContent>) -> (r: Vec<Message>)
    ensures
        r@.len() == text_resources(contents@).len(),
        forall|i: int|
            0 <= i < r@.len() ==> (#[trigger] r@[i]) is User && r@[i].spec_parts().len() == 1
                && r@[i].spec_parts()[0] is Text && r@[i].spec_parts()[0]->Text_content@
                == resource_text(text_resources(contents@)[i].0, text_resources(contents@)[i].1)
                && r@[i].spec_parts()[0]->Text_finished,
{
    let mut out: Vec<Message> = Vec::new();
    let mut i: usize = 0;
    while i < contents.len()
        invariant
            i <= contents@.len(),
            out@.len() == text_resources(contents@.take(i as int)).len(),
            forall|k: int|
                0 <= k < out@.len() ==> (#[trigger] out@[k]) is User && out@[k].spec_parts().len()
                    == 1 && out@[k].spec_parts()[0] is Text && out@[k].spec_parts()[0]->Text_content@
                    == resource_text(
                    text_resources(contents@.take(i as int))[k].0,
                    text_resources(contents@.take(i as int))[k].1,
                ) && out@[k].spec_parts()[0]->Text_finished,
        decreases contents@.len() - i,
    {
        proof {
            assert(contents@.take(i + 1).drop_last() =~= contents@.take(i as int));
        }
        match &contents[i] {
            ResourceContent::Text { uri, text, .. } => {
                let mut t = String::from_str("Resource ");
                t.append(uri.as_str());
                t.append(":\n");
                t.append(text.as_str());
                let mut parts: Vec<Part> = Vec::new();
                parts.push(Part::Text { content: t, finished: true });
                out.push(Message::User(parts));
            },
            _ => {},
        }
        i = i + 1;
    }
    assert(contents@.take(contents@.len() as int) =~= contents@);
    out
}

/// Where a call goes among servers with the given ids: the server named by
/// the routing id, an error when no server has that id, or `None` when no id
/// was given and the servers' listings must be searched.
pub fn route_by_id(server_ids: &Vec<String>, server_id: &Option<String>) -> (r: Option<
    Result<usize, MCPError>,
>)
    ensures
        server_id is None <==> r is None,
        server_id matches Some(id) ==> match r {
            Some(Ok(i)) => i < server_ids@.len() && server_ids@[i as int]@ == id@ && forall|
                j: int,
            | 0 <= j < i ==> (#[trigger] server_ids@[j])@ != id@,
            Some(Err(MCPError::ServerNotFound(e))) => e@ == id@ && forall|j: int|
                0 <= j < server_ids@.len() ==> (#[trigger] server_ids@[j])@ != id@,
            _ => false,
        },
{
    match server_id {
        None => None,
        Some(id) => {
            let mut i: usize = 0;
            while i < server_ids.len()
                invariant
                    i <= server_ids@.len(),
                    *server_id == Some(*id),
                    forall|j: int| 0 <= j < i ==> (#[trigger] server_ids@[j])@ != id@,
                decreases server_ids@.len() - i,
            {
                if str_eq(server_ids[i].as_str(), id.as_str()) {
                    return Some(Ok(i));
                }
                i = i + 1;
            }
            Some(Err(MCPError::ServerNotFound(id.clone())))
        },
    }
}

/// Whether a server's tool listing offers a tool of this name.
pub fn offers_tool(tools: &Vec<Served<ToolDescriptor>>, name: &str) -> (r: bool)
    ensures
        r == exists|i: int| 0 <= i < tools@.len() && (#[trigger] tools@[i]).value.name@ == name@,
{
    let mut i: usize = 0;
    while i < tools.len()
        invariant
            i <= tools@.len(),
            forall|j: int| 0 <= j < i ==> (#[trigger] tools@[j]).value.name@ != name@,
        decreases tools@.len() - i,
    {
        if str_eq(tools[i].value.name.as_str(), name) {
            return true;
        }
        i = i + 1;
    }
    false
}

/// Tags each descriptor of a server's listing with that server's id.
pub fn tag_with_server<T>(items: Vec<Served<T>>, id: &String) -> (r: Vec<Served<T>>)
    ensures
        r@.len() == items@.len(),
        forall|i: int|
            0 <= i < r@.len() ==> (#[trigger] r@[i]).value == items@[i].value && r@[i].server_id
                == Some(*id),
{
    let mut out: Vec<Served<T>> = Vec::new();
    let mut rest = items;
    let ghost all = rest@;
    let mut taken: Vec<Served<T>> = Vec::new();
    while rest.len() > 0
        invariant
            taken@.len() + rest@.len() == all.len(),
            rest@ == all.subrange(0, rest@.len() as int),
            forall|k: int|
                0 <= k < taken@.len() ==> (#[trigger] taken@[k]).value == all[all.len() - 1 - k].value
                    && taken@[k].server_id == Some(*id),
        decreases rest@.len(),
    {
        let s = rest.pop().unwrap();
        taken.push(Served { value: s.value, server_id: Some(id.clone()) });
    }
    while taken.len() > 0
        invariant
            out@.len() + taken@.len() == all.len(),
            forall|k: int|
                0 <= k < taken@.len() ==> (#[trigger] taken@[k]).value == all[all.len() - 1 - k].value
                    && taken@[k].server_id == Some(*id),
            forall|k: int|
                0 <= k < out@.len() ==> (#[trigger] out@[k]).value == all[k].value
                    && out@[k].server_id == Some(*id),
        decreases taken@.len(),
    {
        let s = taken.pop().unwrap();
        out.push(s);
    }
    out
}

/// The next step of looking for the server that offers a tool when a call
/// names no server: servers are asked in order.
#[derive(Debug)]
pub enum ToolProbe {
    /// Call the tool on the server at this position.
    Call(usize),
    /// Ask the server at this position next.
    Ask(usize),
    /// No server offers the tool.
    Missing(MCPError),
}

/// Where to start looking among `count` servers.
pub fn first_probe(count: usize, name: &str) -> (r: ToolProbe)
    ensures
        count > 0 ==> (r matches ToolProbe::Ask(p) && p == 0),
        count == 0 ==> (r matches ToolProbe::Missing(MCPError::ToolNotFound(n)) && n@ == name@),
{
    if count > 0 {
        ToolProbe::Ask(0)
    } else {
        ToolProbe::Missing(MCPError::ToolNotFound(String::from_str(name)))
    }
}

/// Decides after the server at `at` (of `count`) listed `listing`: call it when
/// it offers `name`, else ask the next server, else report the tool missing.
pub fn next_probe(listing: &Vec<Served<ToolDescriptor>>, name: &str, at: usize, count: usize) -> (r:
    ToolProbe)
    requires
        at < count,
    ensures
        (exists|i: int| 0 <= i < listing@.len() && (#[trigger] listing@[i]).value.name@ == name@)
            ==> (r matches ToolProbe::Call(p) && p == at),
        !(exists|i: int| 0 <= i < listing@.len() && (#[trigger] listing@[i]).value.name@ == name@)
            && at + 1 < count ==> (r matches ToolProbe::Ask(p) && p == at + 1),
        !(exists|i: int| 0 <= i < listing@.len() && (#[trigger] listing@[i]).value.name@ == name@)
            && at + 1 == count ==> (r matches ToolProbe::Missing(MCPError::ToolNotFound(n)) && n@
            == name@),
{
    if offers_tool(listing, name) {
        ToolProbe::Call(at)
    } else if at + 1 < count {
        ToolProbe::Ask(at + 1)
    } else {
        ToolProbe::Missing(MCPError::ToolNotFound(String::from_str(name)))
    }
}

} // verus!

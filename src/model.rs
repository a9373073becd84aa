//! The conversation data model: messages, parts, usage and finish reasons.
//!
//! Structured JSON payloads (function-call arguments, tool results, tool schemas)
//! are held as JSON text. Text produced by this library is compact JSON as
//! `serde_json` writes it.
use vstd::prelude::*;

verus! {

/// Kind of payload carried by a `Part::Media`.
#[derive(Clone, Copy, Debug, PartialEq, Eq, Structural)]
pub enum MediaType {
    Image,
    Audio,
    Video,
    Text,
    Document,
    Binary,
}

/// Conversational role of a message.
#[derive(Clone, Copy, Debug, PartialEq, Eq, Structural)]
pub enum Role {
    User,
    Assistant,
    System,
}

/// One unit of content within a message.
#[derive(Clone, Debug)]
pub enum Part {
    /// Natural-language content; `finished` marks a fragment that is streaming-complete.
    Text { content: String, finished: bool },
    /// Inline (base64) or referenced binary or text payload.
    Media {
        media_type: MediaType,
        data: String,
        mime_type: String,
        uri: Option<String>,
        finished: bool,
    },
    /// Model reasoning trace; the signature is passed through unmodified.
    Reasoning {
        content: String,
        summary: Option<String>,
        signature: Option<String>,
        finished: bool,
    },
    /// A request by the model to invoke a named tool. `arguments` is JSON text
    /// once `finished`; while streaming it is the raw argument buffer.
    FunctionCall {
        id: Option<String>,
        name: String,
        arguments: String,
        signature: Option<String>,
        finished: bool,
    },
    /// The result of executing a tool call; `response` is JSON text and
    /// `parts` holds the media or resources the tool returned beside it.
    FunctionResponse {
        id: Option<String>,
        name: String,
        response: String,
        parts: Vec<MediaPart>,
        finished: bool,
    },
}

/// A media payload attached to a tool result; same fields as `Part::Media`.
#[derive(Clone, Debug)]
pub struct MediaPart {
    pub media_type: MediaType,
    pub data: String,
    pub mime_type: String,
    pub uri: Option<String>,
    pub finished: bool,
}

/// A message of the conversation; the role is the variant.
#[derive(Clone, Debug)]
pub enum Message {
    User(Vec<Part>),
    Assistant(Vec<Part>),
    System(Vec<Part>),
}

/// Why generation stopped.
#[derive(Clone, Copy, Debug, PartialEq, Eq, Structural)]
pub enum FinishReason {
    Unfinished,
    Stop,
    OutputTokens,
    ContentFilter,
    ToolCalls,
}

/// Token counts of a request/response cycle.
#[derive(Clone, Copy, Debug, PartialEq, Eq, Structural)]
pub struct Usage {
    pub prompt_tokens: Option<u32>,
    pub completion_tokens: Option<u32>,
}

/// Result of one request/response cycle: only the newly produced messages.
#[derive(Clone, Debug)]
pub struct Response {
    pub data: Vec<Message>,
    pub usage: Usage,
    pub finish: FinishReason,
}

impl Part {
    /// A finished text part.
    pub fn text(content: String) -> (r: Part)
        ensures
            r == (Part::Text { content, finished: true }),
    {
        Part::Text { content, finished: true }
    }
}

/// A copy of an optional string.
pub fn copy_opt(o: &Option<String>) -> (r: Option<String>)
    ensures
        r == *o,
{
    match o {
        Some(s) => Some(s.clone()),
        None => None,
    }
}

impl MediaPart {
    /// A field-by-field copy.
    pub fn duplicate(&self) -> (r: MediaPart)
        ensures
            r == *self,
    {
        MediaPart {
            media_type: self.media_type,
            data: self.data.clone(),
            mime_type: self.mime_type.clone(),
            uri: copy_opt(&self.uri),
            finished: self.finished,
        }
    }
}

impl Part {
    /// Equal fields, comparing nested vectors by their contents.
    pub open spec fn same_as(self, other: Part) -> bool {
        match (self, other) {
            (
                Part::FunctionResponse { id, name, response, parts, finished },
                Part::FunctionResponse {
                    id: id2,
                    name: name2,
                    response: response2,
                    parts: parts2,
                    finished: finished2,
                },
            ) => id == id2 && name == name2 && response == response2 && parts@ == parts2@
                && finished == finished2,
            (Part::FunctionResponse { .. }, _) => false,
            _ => self == other,
        }
    }

    /// A field-by-field copy.
    pub fn duplicate(&self) -> (r: Part)
        ensures
            r.same_as(*self),
    {
        match self {
            Part::Text { content, finished } => Part::Text {
                content: content.clone(),
                finished: *finished,
            },
            Part::Media { media_type, data, mime_type, uri, finished } => Part::Media {
                media_type: *media_type,
                data: data.clone(),
                mime_type: mime_type.clone(),
                uri: copy_opt(uri),
                finished: *finished,
            },
            Part::Reasoning { content, summary, signature, finished } => Part::Reasoning {
                content: content.clone(),
                summary: copy_opt(summary),
                signature: copy_opt(signature),
                finished: *finished,
            },
            Part::FunctionCall { id, name, arguments, signature, finished } => Part::FunctionCall {
                id: copy_opt(id),
                name: name.clone(),
                arguments: arguments.clone(),
                signature: copy_opt(signature),
                finished: *finished,
            },
            Part::FunctionResponse { id, name, response, parts, finished } => {
                let mut copied: Vec<MediaPart> = Vec::new();
                let mut i: usize = 0;
                while i < parts.len()
                    invariant
                        i <= parts.len(),
                        copied@ == parts@.take(i as int),
                    decreases parts.len() - i,
                {
                    copied.push(parts[i].duplicate());
                    i = i + 1;
                    assert(copied@ =~= parts@.take(i as int));
                }
                assert(copied@ =~= parts@);
                Part::FunctionResponse {
                    id: copy_opt(id),
                    name: name.clone(),
                    response: response.clone(),
                    parts: copied,
                    finished: *finished,
                }
            },
        }
    }
}

/// Pointwise `same_as`.
pub open spec fn same_parts(a: Seq<Part>, b: Seq<Part>) -> bool {
    a.len() == b.len() && forall|i: int| 0 <= i < a.len() ==> #[trigger] a[i].same_as(b[i])
}

/// A copy of a sequence of parts.
pub fn duplicate_parts(parts: &Vec<Part>) -> (r: Vec<Part>)
    ensures
        same_parts(r@, parts@),
{
    let mut copied: Vec<Part> = Vec::new();
    let mut i: usize = 0;
    while i < parts.len()
        invariant
            i <= parts.len(),
            same_parts(copied@, parts@.take(i as int)),
        decreases parts.len() - i,
    {
        let p = parts[i].duplicate();
        copied.push(p);
        i = i + 1;
        assert forall|j: int| 0 <= j < copied@.len() implies #[trigger] copied@[j].same_as(
            parts@.take(i as int)[j],
        ) by {
            if j < copied@.len() - 1 {
                assert(parts@.take(i as int)[j] == parts@.take((i - 1) as int)[j]);
            }
        }
    }
    assert(parts@ =~= parts@.take(parts@.len() as int));
    copied
}

impl Message {
    /// A copy with the same role and parts.
    pub fn duplicate(&self) -> (r: Message)
        ensures
            r.spec_role() == self.spec_role(),
            same_parts(r.spec_parts(), self.spec_parts()),
    {
        match self {
            Message::User(p) => Message::User(duplicate_parts(p)),
            Message::Assistant(p) => Message::Assistant(duplicate_parts(p)),
            Message::System(p) => Message::System(duplicate_parts(p)),
        }
    }

    pub open spec fn spec_parts(&self) -> Seq<Part> {
        match self {
            Message::User(p) => p@,
            Message::Assistant(p) => p@,
            Message::System(p) => p@,
        }
    }

    pub open spec fn spec_role(&self) -> Role {
        match self {
            Message::User(_) => Role::User,
            Message::Assistant(_) => Role::Assistant,
            Message::System(_) => Role::System,
        }
    }

    pub fn role(&self) -> (r: Role)
        ensures
            r == self.spec_role(),
    {
        match self {
            Message::User(_) => Role::User,
            Message::Assistant(_) => Role::Assistant,
            Message::System(_) => Role::System,
        }
    }

    pub fn parts(&self) -> (r: &Vec<Part>)
        ensures
            r@ == self.spec_parts(),
    {
        match self {
            Message::User(p) => p,
            Message::Assistant(p) => p,
            Message::System(p) => p,
        }
    }

    /// A message of the given role holding the given parts.
    pub fn with_role(role: Role, parts: Vec<Part>) -> (r: Message)
        ensures
            r.spec_role() == role,
            r.spec_parts() == parts@,
    {
        match role {
            Role::User => Message::User(parts),
            Role::Assistant => Message::Assistant(parts),
            Role::System => Message::System(parts),
        }
    }
}

/// Sum of two optional counters: absent only when both are absent.
pub open spec fn spec_sum_tokens(a: Option<u32>, b: Option<u32>) -> Option<u32> {
    match (a, b) {
        (None, None) => None,
        (Some(x), None) => Some(x),
        (None, Some(y)) => Some(y),
        (Some(x), Some(y)) => Some(
            if x + y <= u32::MAX {
                (x + y) as u32
            } else {
                u32::MAX
            },
        ),
    }
}

fn sum_tokens(a: Option<u32>, b: Option<u32>) -> (r: Option<u32>)
    ensures
        r == spec_sum_tokens(a, b),
{
    match (a, b) {
        (None, None) => None,
        (Some(x), None) => Some(x),
        (None, Some(y)) => Some(y),
        (Some(x), Some(y)) => Some(x.saturating_add(y)),
    }
}

impl Usage {
    /// No counts reported.
    pub fn empty() -> (r: Usage)
        ensures
            r.prompt_tokens is None,
            r.completion_tokens is None,
    {
        Usage { prompt_tokens: None, completion_tokens: None }
    }

    pub open spec fn zero_spec() -> Usage {
        Usage { prompt_tokens: Some(0), completion_tokens: Some(0) }
    }

    /// Zero tokens on both counters.
    pub fn zero() -> (r: Usage)
        ensures
            r == Usage::zero_spec(),
    {
        Usage { prompt_tokens: Some(0), completion_tokens: Some(0) }
    }

    pub open spec fn spec_combine(self, other: Usage) -> Usage {
        Usage {
            prompt_tokens: spec_sum_tokens(self.prompt_tokens, other.prompt_tokens),
            completion_tokens: spec_sum_tokens(self.completion_tokens, other.completion_tokens),
        }
    }

    /// Running total of two turns' usage (counters saturate at `u32::MAX`).
    pub fn combine(&self, other: &Usage) -> (r: Usage)
        ensures
            r == self.spec_combine(*other),
    {
        Usage {
            prompt_tokens: sum_tokens(self.prompt_tokens, other.prompt_tokens),
            completion_tokens: sum_tokens(self.completion_tokens, other.completion_tokens),
        }
    }
}

impl Default for Usage {
    fn default() -> (r: Usage)
        ensures
            r.prompt_tokens is None,
            r.completion_tokens is None,
    {
        Usage::empty()
    }
}

} // verus!

//! Google Gemini `generateContent` wire format.
//!
//! System messages are not contents in this format: their text joins the
//! configured instructions in the request's `system_instruction`.
use vstd::prelude::*;
use crate::model::{copy_opt, FinishReason, Message, Part, Response, Role, Usage};
use crate::tools::ToolDescriptor;
use crate::stream::{opt_view, EventView, StreamEvent, TokenCounts, ToolCallDelta};
use crate::text::{collect_instructions, system_instructions};

verus! {

/// Gemini-specific model options (none so far).
#[derive(Clone, Copy, Debug, PartialEq, Eq, Structural)]
pub struct GeminiModel {}

impl Default for GeminiModel {
    fn default() -> (r: GeminiModel)
        ensures
            r == (GeminiModel {}),
    {
        GeminiModel {}
    }
}

#[derive(Clone, Copy, Debug, PartialEq, Eq, Structural)]
pub enum GeminiRole {
    User,
    Model,
}

/// One part of a Gemini content; structured values are JSON text.
#[derive(Clone, Debug)]
pub enum GeminiPart {
    Text { thought: Option<bool>, text: String },
    FunctionCall { thought_signature: Option<String>, name: String, args: String },
    FunctionResponse { name: String, response: String },
}

#[derive(Clone, Debug)]
pub struct GeminiContent {
    pub role: GeminiRole,
    pub parts: Vec<GeminiPart>,
}

#[derive(Clone, Debug)]
pub struct GeminiFunctionDeclaration {
    pub name: String,
    pub description: String,
    pub parameters_json_schema: String,
}

/// The request body, without sampling parameters.
#[derive(Clone, Debug)]
pub struct GeminiRequest {
    pub contents: Vec<GeminiContent>,
    pub system_instruction: Option<String>,
    pub max_output_tokens: Option<u32>,
    pub include_thoughts: Option<bool>,
    pub function_declarations: Vec<GeminiFunctionDeclaration>,
}

#[derive(Clone, Copy, Debug, PartialEq, Eq, Structural)]
pub enum GeminiFinishReason {
    Stop,
    MaxTokens,
    Safety,
    Language,
    Blocklist,
    ProhibitedContent,
    Spii,
    ImageSafety,
    ImageProhibitedContent,
    ImageRecitation,
    MalformedFunctionCall,
    UnexpectedToolCall,
    TooManyToolCalls,
    Other,
}

#[derive(Clone, Debug)]
pub struct GeminiCandidate {
    pub content: GeminiContent,
    pub finish_reason: Option<GeminiFinishReason>,
}

#[derive(Clone, Copy, Debug, PartialEq, Eq, Structural)]
pub struct GeminiUsageMetadata {
    pub prompt_token_count: u32,
    pub candidates_token_count: Option<u32>,
    pub thoughts_token_count: Option<u32>,
}

#[derive(Clone, Debug)]
pub struct GeminiResponse {
    pub candidates: Vec<GeminiCandidate>,
    pub usage_metadata: Option<GeminiUsageMetadata>,
}

pub enum GeminiPartView {
    Text { thought: Option<bool>, text: Seq<char> },
    FunctionCall { thought_signature: Option<Seq<char>>, name: Seq<char>, args: Seq<char> },
    FunctionResponse { name: Seq<char>, response: Seq<char> },
}

impl View for GeminiPart {
    type V = GeminiPartView;

    open spec fn view(&self) -> GeminiPartView {
        match self {
            GeminiPart::Text { thought, text } => GeminiPartView::Text { thought: *thought, text: text@ },
            GeminiPart::FunctionCall { thought_signature, name, args } => GeminiPartView::FunctionCall {
                thought_signature: opt_view(*thought_signature),
                name: name@,
                args: args@,
            },
            GeminiPart::FunctionResponse { name, response } => GeminiPartView::FunctionResponse {
                name: name@,
                response: response@,
            },
        }
    }
}

pub open spec fn gemini_parts_view(ps: Seq<GeminiPart>) -> Seq<GeminiPartView> {
    Seq::new(ps.len(), |i: int| ps[i]@)
}

pub open spec fn gemini_role(role: Role) -> GeminiRole {
    match role {
        Role::Assistant => GeminiRole::Model,
        _ => GeminiRole::User,
    }
}

/// What one conversation part becomes; media has no Gemini form here.
pub open spec fn gemini_part_of(p: Part) -> Seq<GeminiPartView> {
    match p {
        Part::Text { content, .. } => seq![GeminiPartView::Text { thought: None, text: content@ }],
        Part::Reasoning { content, .. } => seq![
            GeminiPartView::Text { thought: Some(true), text: content@ },
        ],
        Part::FunctionCall { name, arguments, signature, .. } => seq![
            GeminiPartView::FunctionCall {
                thought_signature: opt_view(signature),
                name: name@,
                args: arguments@,
            },
        ],
        Part::FunctionResponse { name, response, .. } => seq![
            GeminiPartView::FunctionResponse { name: name@, response: response@ },
        ],
        Part::Media { .. } => Seq::empty(),
    }
}

pub open spec fn gemini_parts_of(ps: Seq<Part>) -> Seq<GeminiPartView>
    decreases ps.len(),
{
    if ps.len() == 0 {
        Seq::empty()
    } else {
        gemini_parts_of(ps.drop_last()) + gemini_part_of(ps.last())
    }
}

/// The Gemini content of a conversation message.
pub fn content_from_message(m: &Message) -> (r: GeminiContent)
    ensures
        r.role == gemini_role(m.spec_role()),
        gemini_parts_view(r.parts@) == gemini_parts_of(m.spec_parts()),
{
    let parts = m.parts();
    let mut out: Vec<GeminiPart> = Vec::new();
    let mut j: usize = 0;
    while j < parts.len()
        invariant
            parts@ == m.spec_parts(),
            j <= parts@.len(),
            gemini_parts_view(out@) == gemini_parts_of(parts@.take(j as int)),
        decreases parts@.len() - j,
    {
        let ghost before = out@;
        match &parts[j] {
            Part::Text { content, .. } => {
                out.push(GeminiPart::Text { thought: None, text: content.clone() });
            },
            Part::Reasoning { content, .. } => {
                out.push(GeminiPart::Text { thought: Some(true), text: content.clone() });
            },
            Part::FunctionCall { name, arguments, signature, .. } => {
                out.push(
                    GeminiPart::FunctionCall {
                        thought_signature: copy_opt(signature),
                        name: name.clone(),
                        args: arguments.clone(),
                    },
                );
            },
            Part::FunctionResponse { name, response, .. } => {
                out.push(
                    GeminiPart::FunctionResponse { name: name.clone(), response: response.clone() },
                );
            },
            Part::Media { .. } => {},
        }
        proof {
            assert(parts@.take(j + 1).drop_last() =~= parts@.take(j as int));
            assert(gemini_parts_view(out@) =~= gemini_parts_view(before) + gemini_part_of(
                parts@[j as int],
            ));
        }
        j = j + 1;
    }
    assert(parts@.take(parts@.len() as int) =~= parts@);
    let role = match m.role() {
        Role::Assistant => GeminiRole::Model,
        _ => GeminiRole::User,
    };
    GeminiContent { role, parts: out }
}

/// Contents of a request: every message but the system ones, in order.
pub open spec fn content_messages(ms: Seq<Message>) -> Seq<Message>
    decreases ms.len(),
{
    if ms.len() == 0 {
        Seq::empty()
    } else {
        content_messages(ms.drop_last()) + if ms.last() is System {
            Seq::empty()
        } else {
            seq![ms.last()]
        }
    }
}

/// Builds the request body: non-system messages as contents, system text as
/// `system_instruction`, and one function declaration per tool.
pub fn build_gemini_request(
    messages: &Vec<Message>,
    system: &Option<String>,
    max_tokens: Option<u32>,
    reasoning: Option<bool>,
    tools: &Vec<ToolDescriptor>,
) -> (r: GeminiRequest)
    ensures
        r.contents@.len() == content_messages(messages@).len(),
        forall|i: int|
            0 <= i < r.contents@.len() ==> (#[trigger] r.contents@[i]).role == gemini_role(
                content_messages(messages@)[i].spec_role(),
            ) && gemini_parts_view(r.contents@[i].parts@) == gemini_parts_of(
                content_messages(messages@)[i].spec_parts(),
            ),
        opt_view(r.system_instruction) == system_instructions(opt_view(*system), messages@),
        r.max_output_tokens == max_tokens,
        r.include_thoughts == reasoning,
        r.function_declarations@.len() == tools@.len(),
        forall|i: int|
            0 <= i < tools@.len() ==> (#[trigger] r.function_declarations@[i]).name@
                == tools@[i].name@ && r.function_declarations@[i].parameters_json_schema@
                == tools@[i].input_schema@ && r.function_declarations@[i].description@ == (
            match tools@[i].description {
                Some(d) => d@,
                None => Seq::empty(),
            }),
{
    let mut contents: Vec<GeminiContent> = Vec::new();
    let mut i: usize = 0;
    while i < messages.len()
        invariant
            i <= messages@.len(),
            contents@.len() == content_messages(messages@.take(i as int)).len(),
            forall|k: int|
                0 <= k < contents@.len() ==> (#[trigger] contents@[k]).role == gemini_role(
                    content_messages(messages@.take(i as int))[k].spec_role(),
                ) && gemini_parts_view(contents@[k].parts@) == gemini_parts_of(
                    content_messages(messages@.take(i as int))[k].spec_parts(),
                ),
        decreases messages@.len() - i,
    {
        let ghost prev = content_messages(messages@.take(i as int));
        proof {
            assert(messages@.take(i + 1).drop_last() =~= messages@.take(i as int));
        }
        match &messages[i] {
            Message::System(_) => {
                proof {
                    assert(content_messages(messages@.take(i + 1)) =~= prev);
                }
            },
            m => {
                contents.push(content_from_message(m));
                proof {
                    assert(content_messages(messages@.take(i + 1)) =~= prev.push(messages@[i as int]));
                }
            },
        }
        i = i + 1;
    }
    assert(messages@.take(messages@.len() as int) =~= messages@);
    let mut decls: Vec<GeminiFunctionDeclaration> = Vec::new();
    let mut k: usize = 0;
    while k < tools.len()
        invariant
            k <= tools@.len(),
            decls@.len() == k,
            forall|j: int|
                0 <= j < k ==> (#[trigger] decls@[j]).name@ == tools@[j].name@
                    && decls@[j].parameters_json_schema@ == tools@[j].input_schema@
                    && decls@[j].description@ == (match tools@[j].description {
                    Some(d) => d@,
                    None => Seq::empty(),
                }),
        decreases tools@.len() - k,
    {
        let t = &tools[k];
        let description = match &t.description {
            Some(d) => d.clone(),
            None => String::new(),
        };
        decls.push(
            GeminiFunctionDeclaration {
                name: t.name.clone(),
                description,
                parameters_json_schema: t.input_schema.clone(),
            },
        );
        k = k + 1;
    }
    GeminiRequest {
        contents,
        system_instruction: collect_instructions(system, messages),
        max_output_tokens: max_tokens,
        include_thoughts: reasoning,
        function_declarations: decls,
    }
}

/// The Gemini finish-reason table.
pub open spec fn spec_gemini_finish(f: GeminiFinishReason) -> FinishReason {
    match f {
        GeminiFinishReason::Stop => FinishReason::Stop,
        GeminiFinishReason::MaxTokens => FinishReason::OutputTokens,
        GeminiFinishReason::Safety | GeminiFinishReason::Language | GeminiFinishReason::Blocklist
        | GeminiFinishReason::ProhibitedContent | GeminiFinishReason::Spii
        | GeminiFinishReason::ImageSafety | GeminiFinishReason::ImageProhibitedContent
        | GeminiFinishReason::ImageRecitation => FinishReason::ContentFilter,
        GeminiFinishReason::MalformedFunctionCall | GeminiFinishReason::UnexpectedToolCall
        | GeminiFinishReason::TooManyToolCalls => FinishReason::ToolCalls,
        GeminiFinishReason::Other => FinishReason::Stop,
    }
}

/// Maps a Gemini finish reason.
pub fn gemini_finish(f: GeminiFinishReason) -> (r: FinishReason)
    ensures
        r == spec_gemini_finish(f),
{
    match f {
        GeminiFinishReason::Stop => FinishReason::Stop,
        GeminiFinishReason::MaxTokens => FinishReason::OutputTokens,
        GeminiFinishReason::Safety | GeminiFinishReason::Language | GeminiFinishReason::Blocklist
        | GeminiFinishReason::ProhibitedContent | GeminiFinishReason::Spii
        | GeminiFinishReason::ImageSafety | GeminiFinishReason::ImageProhibitedContent
        | GeminiFinishReason::ImageRecitation => FinishReason::ContentFilter,
        GeminiFinishReason::MalformedFunctionCall | GeminiFinishReason::UnexpectedToolCall
        | GeminiFinishReason::TooManyToolCalls => FinishReason::ToolCalls,
        GeminiFinishReason::Other => FinishReason::Stop,
    }
}

pub open spec fn saturating(x: int) -> u32 {
    if x <= u32::MAX {
        x as u32
    } else {
        u32::MAX
    }
}

/// Usage from Gemini metadata: completion counts candidate and thought tokens
/// (saturating at `u32::MAX`).
pub open spec fn spec_gemini_usage(u: GeminiUsageMetadata) -> Usage {
    Usage {
        prompt_tokens: Some(u.prompt_token_count),
        completion_tokens: Some(
            saturating(
                (match u.candidates_token_count {
                    Some(c) => c as int,
                    None => 0,
                }) + (match u.thoughts_token_count {
                    Some(t) => t as int,
                    None => 0,
                }),
            ),
        ),
    }
}

pub fn gemini_usage(u: &GeminiUsageMetadata) -> (r: Usage)
    ensures
        r == spec_gemini_usage(*u),
{
    let c = match u.candidates_token_count {
        Some(c) => c,
        None => 0,
    };
    let t = match u.thoughts_token_count {
        Some(t) => t,
        None => 0,
    };
    Usage { prompt_tokens: Some(u.prompt_token_count), completion_tokens: Some(c.saturating_add(t)) }
}

/// `p` is the conversation part read back from the Gemini part `g`.
pub open spec fn decodes_gemini_part(p: Part, g: GeminiPart) -> bool {
    match g {
        GeminiPart::Text { thought, text } => if thought == Some(true) {
            p == (Part::Reasoning { content: text, summary: None, signature: None, finished: true })
        } else {
            p == (Part::Text { content: text, finished: true })
        },
        GeminiPart::FunctionCall { thought_signature, name, args } => p == (Part::FunctionCall {
            id: None,
            name,
            arguments: args,
            signature: thought_signature,
            finished: true,
        }),
        GeminiPart::FunctionResponse { name, response } => match p {
            Part::FunctionResponse { id: None, name: n, response: r, parts, finished: true } => n
                == name && r == response && parts@.len() == 0,
            _ => false,
        },
    }
}

/// Reads one Gemini part back.
pub fn part_from_gemini(g: &GeminiPart) -> (r: Part)
    ensures
        decodes_gemini_part(r, *g),
{
    match g {
        GeminiPart::Text { thought, text } => {
            if *thought == Some(true) {
                Part::Reasoning {
                    content: text.clone(),
                    summary: None,
                    signature: None,
                    finished: true,
                }
            } else {
                Part::Text { content: text.clone(), finished: true }
            }
        },
        GeminiPart::FunctionCall { thought_signature, name, args } => Part::FunctionCall {
            id: None,
            name: name.clone(),
            arguments: args.clone(),
            signature: copy_opt(thought_signature),
            finished: true,
        },
        GeminiPart::FunctionResponse { name, response } => Part::FunctionResponse {
            id: None,
            name: name.clone(),
            response: response.clone(),
            parts: Vec::new(),
            finished: true,
        },
    }
}

/// Every part of every candidate, in order.
pub open spec fn candidate_parts(cs: Seq<GeminiCandidate>) -> Seq<GeminiPart>
    decreases cs.len(),
{
    if cs.len() == 0 {
        Seq::empty()
    } else {
        candidate_parts(cs.drop_last()) + cs.last().content.parts@
    }
}

/// Reads a response: one assistant message per candidate part, the last
/// candidate's finish reason (a normal stop when absent), and the usage.
pub fn response_from_gemini(resp: &GeminiResponse) -> (r: Response)
    ensures
        r.data@.len() == candidate_parts(resp.candidates@).len(),
        forall|i: int|
            0 <= i < r.data@.len() ==> (#[trigger] r.data@[i]) is Assistant
                && r.data@[i].spec_parts().len() == 1 && decodes_gemini_part(
                r.data@[i].spec_parts()[0],
                candidate_parts(resp.candidates@)[i],
            ),
        r.finish == (if resp.candidates@.len() > 0 {
            match resp.candidates@.last().finish_reason {
                Some(f) => spec_gemini_finish(f),
                None => FinishReason::Stop,
            }
        } else {
            FinishReason::Stop
        }),
        r.usage == match resp.usage_metadata {
            Some(u) => spec_gemini_usage(u),
            None => Usage { prompt_tokens: None, completion_tokens: None },
        },
{
    let mut data: Vec<Message> = Vec::new();
    let mut c: usize = 0;
    while c < resp.candidates.len()
        invariant
            c <= resp.candidates@.len(),
            data@.len() == candidate_parts(resp.candidates@.take(c as int)).len(),
            forall|i: int|
                0 <= i < data@.len() ==> (#[trigger] data@[i]) is Assistant
                    && data@[i].spec_parts().len() == 1 && decodes_gemini_part(
                    data@[i].spec_parts()[0],
                    candidate_parts(resp.candidates@.take(c as int))[i],
                ),
        decreases resp.candidates@.len() - c,
    {
        let ghost before = candidate_parts(resp.candidates@.take(c as int));
        let parts = &resp.candidates[c].content.parts;
        proof {
            assert(resp.candidates@.take(c + 1).drop_last() =~= resp.candidates@.take(c as int));
        }
        let mut j: usize = 0;
        while j < parts.len()
            invariant
                j <= parts@.len(),
                data@.len() == before.len() + j,
                forall|i: int|
                    0 <= i < data@.len() ==> (#[trigger] data@[i]) is Assistant
                        && data@[i].spec_parts().len() == 1 && decodes_gemini_part(
                        data@[i].spec_parts()[0],
                        (before + parts@)[i],
                    ),
            decreases parts@.len() - j,
        {
            let mut one: Vec<Part> = Vec::new();
            one.push(part_from_gemini(&parts[j]));
            data.push(Message::Assistant(one));
            proof {
                assert((before + parts@)[before.len() + j] == parts@[j as int]);
            }
            j = j + 1;
        }
        proof {
            assert(candidate_parts(resp.candidates@.take(c + 1)) =~= before + parts@);
        }
        c = c + 1;
    }
    assert(resp.candidates@.take(resp.candidates@.len() as int) =~= resp.candidates@);
    let n = resp.candidates.len();
    let finish = if n > 0 {
        match resp.candidates[n - 1].finish_reason {
            Some(f) => gemini_finish(f),
            None => FinishReason::Stop,
        }
    } else {
        FinishReason::Stop
    };
    let usage = match &resp.usage_metadata {
        Some(u) => gemini_usage(u),
        None => Usage::empty(),
    };
    Response { data, usage, finish }
}

/// The accumulator events of one Gemini part; function calls, which Gemini
/// sends whole, take the call index `index`. Thoughts and tool results add nothing.
pub open spec fn gemini_part_events(g: GeminiPart, index: u32) -> Seq<EventView> {
    match g {
        GeminiPart::Text { thought, text } => if thought == Some(true) {
            Seq::empty()
        } else {
            seq![EventView::Text(text@)]
        },
        GeminiPart::FunctionCall { name, args, .. } => seq![
            EventView::ToolCall { index, id: None, name: name@, arguments: args@ },
        ],
        GeminiPart::FunctionResponse { .. } => Seq::empty(),
    }
}

pub open spec fn is_call(g: GeminiPart) -> bool {
    g is FunctionCall
}

/// Events of parts, numbering function calls from `first`.
pub open spec fn gemini_parts_events(ps: Seq<GeminiPart>, first: u32) -> Seq<EventView>
    decreases ps.len(),
{
    if ps.len() == 0 {
        Seq::empty()
    } else {
        gemini_parts_events(ps.drop_last(), first) + gemini_part_events(
            ps.last(),
            saturating(first + calls_in(ps.drop_last())),
        )
    }
}

/// Number of function calls among parts.
pub open spec fn calls_in(ps: Seq<GeminiPart>) -> nat
    decreases ps.len(),
{
    if ps.len() == 0 {
        0
    } else {
        calls_in(ps.drop_last()) + if is_call(ps.last()) {
            1nat
        } else {
            0nat
        }
    }
}

/// Events of one streamed Gemini response: its parts, then its usage, then
/// the last candidate's finish reason when present.
pub open spec fn gemini_chunk_events(resp: GeminiResponse, first: u32) -> Seq<EventView> {
    gemini_parts_events(candidate_parts(resp.candidates@), first) + (match resp.usage_metadata {
        Some(u) => seq![
            EventView::Usage(
                TokenCounts {
                    prompt_tokens: u.prompt_token_count,
                    completion_tokens: spec_gemini_usage(u).completion_tokens->0,
                },
            ),
        ],
        None => Seq::empty(),
    }) + (if resp.candidates@.len() > 0 && resp.candidates@.last().finish_reason is Some {
        seq![EventView::Finish(spec_gemini_finish(resp.candidates@.last().finish_reason->0))]
    } else {
        Seq::empty()
    })
}

pub open spec fn events_view(es: Seq<StreamEvent>) -> Seq<EventView> {
    Seq::new(es.len(), |i: int| es[i]@)
}

/// Turns one streamed Gemini response into accumulator events. `first` is the
/// number of function calls seen earlier in the stream; the result also gives
/// the count after this response (both saturate at `u32::MAX`).
pub fn gemini_stream_events(resp: &GeminiResponse, first: u32) -> (r: (Vec<StreamEvent>, u32))
    ensures
        events_view(r.0@) == gemini_chunk_events(*resp, first),
        r.1 == saturating(first + calls_in(candidate_parts(resp.candidates@))),
{
    let mut events: Vec<StreamEvent> = Vec::new();
    let mut next: u32 = first;
    let ghost mut seen: Seq<GeminiPart> = Seq::empty();
    let mut c: usize = 0;
    while c < resp.candidates.len()
        invariant
            c <= resp.candidates@.len(),
            seen == candidate_parts(resp.candidates@.take(c as int)),
            events_view(events@) == gemini_parts_events(seen, first),
            next == saturating(first + calls_in(seen)),
        decreases resp.candidates@.len() - c,
    {
        let parts = &resp.candidates[c].content.parts;
        proof {
            assert(resp.candidates@.take(c + 1).drop_last() =~= resp.candidates@.take(c as int));
        }
        let ghost base = seen;
        let mut j: usize = 0;
        while j < parts.len()
            invariant
                j <= parts@.len(),
                seen == base + parts@.take(j as int),
                events_view(events@) == gemini_parts_events(seen, first),
                next == saturating(first + calls_in(seen)),
            decreases parts@.len() - j,
        {
            let ghost before = events@;
            let ghost prev = seen;
            proof {
                seen = seen.push(parts@[j as int]);
                assert(base + parts@.take(j + 1) =~= seen);
                assert(seen.drop_last() =~= prev);
            }
            match &parts[j] {
                GeminiPart::Text { thought, text } => {
                    if *thought != Some(true) {
                        events.push(StreamEvent::Text(text.clone()));
                    }
                },
                GeminiPart::FunctionCall { name, args, .. } => {
                    events.push(
                        StreamEvent::ToolCall(
                            ToolCallDelta {
                                index: next,
                                id: None,
                                name: Some(name.clone()),
                                arguments: Some(args.clone()),
                            },
                        ),
                    );
                    next = next.saturating_add(1);
                },
                GeminiPart::FunctionResponse { .. } => {},
            }
            proof {
                assert(events_view(events@) =~= events_view(before) + gemini_part_events(
                    parts@[j as int],
                    saturating(first + calls_in(prev)),
                ));
            }
            j = j + 1;
        }
        proof {
            assert(parts@.take(parts@.len() as int) =~= parts@);
            assert(candidate_parts(resp.candidates@.take(c + 1)) =~= seen);
        }
        c = c + 1;
    }
    assert(resp.candidates@.take(resp.candidates@.len() as int) =~= resp.candidates@);
    let ghost after_parts = events@;
    if let Some(u) = &resp.usage_metadata {
        let usage = gemini_usage(u);
        let completion = match usage.completion_tokens {
            Some(n) => n,
            None => 0,
        };
        events.push(
            StreamEvent::Usage(
                TokenCounts { prompt_tokens: u.prompt_token_count, completion_tokens: completion },
            ),
        );
    }
    let ghost after_usage = events@;
    let n = resp.candidates.len();
    if n > 0 {
        if let Some(f) = resp.candidates[n - 1].finish_reason {
            events.push(StreamEvent::Finish(gemini_finish(f)));
        }
    }
    proof {
        assert(events_view(events@) =~= gemini_chunk_events(*resp, first));
    }
    (events, next)
}

/// Text survives the Gemini mapping: a user message holding one text part
/// becomes one user content with one plain text part, which reads back as a
/// finished text part with exactly that text.
pub proof fn lemma_gemini_text_round_trip(m: Message, content: GeminiContent, back: Part)
    requires
        m is User,
        m.spec_parts().len() == 1,
        m.spec_parts()[0] is Text,
        content.role == gemini_role(m.spec_role()),
        gemini_parts_view(content.parts@) == gemini_parts_of(m.spec_parts()),
        content.parts@.len() > 0,
        decodes_gemini_part(back, content.parts@[0]),
    ensures
        content.role == GeminiRole::User,
        content.parts@.len() == 1,
        back is Text,
        back->Text_content@ == m.spec_parts()[0]->Text_content@,
        back->Text_finished,
{
    let ps = m.spec_parts();
    assert(ps.drop_last().len() == 0);
    assert(gemini_parts_of(ps.drop_last()) =~= Seq::<GeminiPartView>::empty());
    assert(gemini_parts_of(ps) =~= gemini_part_of(ps[0]));
    assert(gemini_parts_view(content.parts@)[0] == content.parts@[0]@);
}

} // verus!

//! Anthropic Messages wire format.
//!
//! Messages carry their text parts joined with `\n`; system messages join the
//! configured instructions in the top-level `system` field.
use vstd::prelude::*;
use crate::model::{copy_opt, FinishReason, Message, Part, Response, Role, Usage};
use crate::tools::ToolDescriptor;
use crate::stream::{concat_all, opt_view};
use crate::text::{collect_instructions, join_lines, joined_text, str_eq, system_instructions, texts_of};

verus! {

/// `max_tokens` sent when the options set none.
pub const DEFAULT_MAX_TOKENS: u32 = 1024;

#[derive(Clone, Debug)]
pub struct AnthropicMessage {
    pub role: String,
    pub content: String,
}

#[derive(Clone, Debug)]
pub struct AnthropicTool {
    pub name: String,
    pub description: Option<String>,
    pub input_schema: String,
}

/// The request body, without sampling parameters and vendor options.
#[derive(Clone, Debug)]
pub struct AnthropicRequest {
    pub model: String,
    pub messages: Vec<AnthropicMessage>,
    pub max_tokens: u32,
    pub system: Option<String>,
    pub tools: Vec<AnthropicTool>,
}

/// A response body: the text blocks, the stop reason and the token counts.
#[derive(Clone, Debug)]
pub struct AnthropicResponse {
    pub content: Vec<String>,
    pub stop_reason: Option<String>,
    pub input_tokens: u32,
    pub output_tokens: u32,
}

/// The messages sent: user and assistant messages with some text, in order,
/// as (role, joined text).
pub open spec fn anthropic_messages(ms: Seq<Message>) -> Seq<(Seq<char>, Seq<char>)>
    decreases ms.len(),
{
    if ms.len() == 0 {
        Seq::empty()
    } else {
        let m = ms.last();
        let t = join_lines(texts_of(m.spec_parts()));
        anthropic_messages(ms.drop_last()) + if m is System || t.len() == 0 {
            Seq::empty()
        } else {
            seq![
                (if m is User {
                    "user"@
                } else {
                    "assistant"@
                }, t),
            ]
        }
    }
}

pub open spec fn anthropic_messages_view(ms: Seq<AnthropicMessage>) -> Seq<(Seq<char>, Seq<char>)> {
    Seq::new(ms.len(), |i: int| (ms[i].role@, ms[i].content@))
}

/// Builds the request body.
pub fn build_anthropic_request(
    messages: &Vec<Message>,
    system: &Option<String>,
    model: &String,
    max_tokens: Option<u32>,
    tools: &Vec<ToolDescriptor>,
) -> (r: AnthropicRequest)
    ensures
        r.model@ == model@,
        anthropic_messages_view(r.messages@) == anthropic_messages(messages@),
        r.max_tokens == match max_tokens {
            Some(n) => n,
            None => DEFAULT_MAX_TOKENS,
        },
        opt_view(r.system) == system_instructions(opt_view(*system), messages@),
        r.tools@.len() == tools@.len(),
        forall|i: int|
            0 <= i < tools@.len() ==> (#[trigger] r.tools@[i]).name@ == tools@[i].name@
                && opt_view(r.tools@[i].description) == opt_view(tools@[i].description)
                && r.tools@[i].input_schema@ == tools@[i].input_schema@,
{
    let mut out: Vec<AnthropicMessage> = Vec::new();
    let mut i: usize = 0;
    while i < messages.len()
        invariant
            i <= messages@.len(),
            anthropic_messages_view(out@) == anthropic_messages(messages@.take(i as int)),
        decreases messages@.len() - i,
    {
        let ghost before = out@;
        proof {
            assert(messages@.take(i + 1).drop_last() =~= messages@.take(i as int));
        }
        let m = &messages[i];
        match m {
            Message::System(_) => {},
            _ => {
                let t = joined_text(m.parts());
                if t.unicode_len() > 0 {
                    let role = match m.role() {
                        Role::User => String::from_str("user"),
                        _ => String::from_str("assistant"),
                    };
                    out.push(AnthropicMessage { role, content: t });
                }
            },
        }
        proof {
            assert(anthropic_messages_view(out@) =~= anthropic_messages(messages@.take(i + 1)));
        }
        i = i + 1;
    }
    assert(messages@.take(messages@.len() as int) =~= messages@);
    let mut wire_tools: Vec<AnthropicTool> = Vec::new();
    let mut k: usize = 0;
    while k < tools.len()
        invariant
            k <= tools@.len(),
            wire_tools@.len() == k,
            forall|j: int|
                0 <= j < k ==> (#[trigger] wire_tools@[j]).name@ == tools@[j].name@
                    && opt_view(wire_tools@[j].description) == opt_view(tools@[j].description)
                    && wire_tools@[j].input_schema@ == tools@[j].input_schema@,
        decreases tools@.len() - k,
    {
        let t = &tools[k];
        wire_tools.push(
            AnthropicTool {
                name: t.name.clone(),
                description: copy_opt(&t.description),
                input_schema: t.input_schema.clone(),
            },
        );
        k = k + 1;
    }
    AnthropicRequest {
        model: model.clone(),
        messages: out,
        max_tokens: match max_tokens {
            Some(n) => n,
            None => DEFAULT_MAX_TOKENS,
        },
        system: collect_instructions(system, messages),
        tools: wire_tools,
    }
}

/// The Anthropic stop-reason table: only `max_tokens` is not a normal stop.
pub open spec fn spec_anthropic_finish(stop: Option<Seq<char>>) -> FinishReason {
    if stop == Some("max_tokens"@) {
        FinishReason::OutputTokens
    } else {
        FinishReason::Stop
    }
}

/// Reads a response: one assistant message whose single text part is the
/// concatenation of the text blocks, the stop reason and the token counts.
pub fn response_from_anthropic(resp: &AnthropicResponse) -> (r: Response)
    ensures
        r.data@.len() == 1,
        r.data@[0] is Assistant,
        r.data@[0].spec_parts().len() == 1,
        r.data@[0].spec_parts()[0] is Text,
        r.data@[0].spec_parts()[0]->Text_content@ == concat_all(
            Seq::new(resp.content@.len(), |i: int| resp.content@[i]@),
        ),
        r.data@[0].spec_parts()[0]->Text_finished,
        r.finish == spec_anthropic_finish(opt_view(resp.stop_reason)),
        r.usage == (Usage {
            prompt_tokens: Some(resp.input_tokens),
            completion_tokens: Some(resp.output_tokens),
        }),
{
    let ghost blocks = Seq::new(resp.content@.len(), |i: int| resp.content@[i]@);
    let mut text = String::new();
    let mut i: usize = 0;
    while i < resp.content.len()
        invariant
            i <= resp.content@.len(),
            blocks == Seq::new(resp.content@.len(), |i: int| resp.content@[i]@),
            text@ == concat_all(blocks.take(i as int)),
        decreases resp.content@.len() - i,
    {
        text.append(resp.content[i].as_str());
        proof {
            assert(blocks.take(i + 1).drop_last() =~= blocks.take(i as int));
        }
        i = i + 1;
    }
    assert(blocks.take(resp.content@.len() as int) =~= blocks);
    proof {
        reveal_strlit("max_tokens");
    }
    let finish = match &resp.stop_reason {
        Some(s) => if str_eq(s.as_str(), "max_tokens") {
            FinishReason::OutputTokens
        } else {
            FinishReason::Stop
        },
        None => FinishReason::Stop,
    };
    let mut parts: Vec<Part> = Vec::new();
    parts.push(Part::Text { content: text, finished: true });
    let mut data: Vec<Message> = Vec::new();
    data.push(Message::Assistant(parts));
    Response {
        data,
        usage: Usage {
            prompt_tokens: Some(resp.input_tokens),
            completion_tokens: Some(resp.output_tokens),
        },
        finish,
    }
}

/// Text survives the Anthropic mapping: a user message holding one non-empty
/// text part is sent as one user message with exactly that text, and a response
/// whose only text block is that text reads back as a finished text part
/// holding it. (An empty text is not sent at all.)
pub proof fn lemma_anthropic_text_round_trip(m: Message, resp: AnthropicResponse, back: Response)
    requires
        m is User,
        m.spec_parts().len() == 1,
        m.spec_parts()[0] is Text,
        m.spec_parts()[0]->Text_content@.len() > 0,
        resp.content@.len() == 1,
        resp.content@[0]@ == anthropic_messages(seq![m])[0].1,
        back.data@.len() == 1,
        back.data@[0].spec_parts().len() == 1,
        back.data@[0].spec_parts()[0] is Text,
        back.data@[0].spec_parts()[0]->Text_content@ == concat_all(
            Seq::new(resp.content@.len(), |i: int| resp.content@[i]@),
        ),
    ensures
        anthropic_messages(seq![m]) == seq![("user"@, m.spec_parts()[0]->Text_content@)],
        back.data@[0].spec_parts()[0]->Text_content@ == m.spec_parts()[0]->Text_content@,
{
    let ps = m.spec_parts();
    let s = ps[0]->Text_content@;
    assert(ps.drop_last().len() == 0);
    assert(texts_of(ps.drop_last()) =~= Seq::<Seq<char>>::empty());
    assert(texts_of(ps) =~= seq![s]);
    assert(join_lines(seq![s]) == s);
    let ms = seq![m];
    assert(ms.drop_last().len() == 0);
    assert(anthropic_messages(ms.drop_last()) =~= Seq::<(Seq<char>, Seq<char>)>::empty());
    assert(anthropic_messages(ms) =~= seq![("user"@, s)]);
    let blocks = Seq::new(resp.content@.len(), |i: int| resp.content@[i]@);
    assert(blocks.drop_last().len() == 0);
    assert(concat_all(blocks.drop_last()) =~= Seq::<char>::empty());
    assert(concat_all(blocks) =~= s);
}

} // verus!

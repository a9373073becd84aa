//! Streaming accumulation: folds streamed deltas into one growing assistant
//! message whose full state is available after every chunk.
//!
//! Text deltas extend the last part when it is an unfinished text part and
//! start a new text part otherwise. Tool-call deltas are addressed by the
//! vendor's call index: the first delta of an index opens a new function-call
//! part, later ones append to its name and argument buffer. A finish reason
//! marks every part finished and turns each argument buffer into JSON text
//! (`{}` when the buffer is not JSON). Usage reports are cumulative totals and
//! replace the previous ones.
use vstd::prelude::*;
use std::collections::HashMap;
use crate::json::{empty_object, empty_object_text, is_json, json_is_valid};
use crate::model::{copy_opt, FinishReason, Message, Part, Response, Usage};
use crate::text::str_eq;

verus! {

/// One streamed fragment of a tool call, addressed by the vendor's call index.
#[derive(Clone, Debug)]
pub struct ToolCallDelta {
    pub index: u32,
    pub id: Option<String>,
    pub name: Option<String>,
    pub arguments: Option<String>,
}

/// The delta of one choice within a streamed chunk.
#[derive(Clone, Debug)]
pub struct StreamChoice {
    pub content: Option<String>,
    pub tool_calls: Vec<ToolCallDelta>,
    pub finish_reason: Option<String>,
}

/// Cumulative token totals reported by a chunk.
#[derive(Clone, Copy, Debug, PartialEq, Eq, Structural)]
pub struct TokenCounts {
    pub prompt_tokens: u32,
    pub completion_tokens: u32,
}

/// One decoded chunk of an OpenAI-style completion stream.
#[derive(Clone, Debug)]
pub struct StreamChunk {
    pub choices: Vec<StreamChoice>,
    pub usage: Option<TokenCounts>,
}

/// A single update to the accumulated response.
#[derive(Clone, Debug)]
pub enum StreamEvent {
    Text(String),
    ToolCall(ToolCallDelta),
    Finish(FinishReason),
    Usage(TokenCounts),
}

/// Mathematical form of a `StreamEvent`; absent name or argument fragments are empty.
pub enum EventView {
    Text(Seq<char>),
    ToolCall { index: u32, id: Option<Seq<char>>, name: Seq<char>, arguments: Seq<char> },
    Finish(FinishReason),
    Usage(TokenCounts),
}

/// Mathematical form of an accumulated part.
pub enum PartView {
    Text { content: Seq<char>, finished: bool },
    Call { id: Option<Seq<char>>, name: Seq<char>, arguments: Seq<char>, finished: bool },
}

/// Mathematical form of the accumulator: the parts of the assistant message,
/// the call-index to part-position table, the usage and the finish reason.
pub struct StreamState {
    pub parts: Seq<PartView>,
    pub slots: Map<u32, int>,
    pub usage: Usage,
    pub finish: FinishReason,
}

pub open spec fn opt_view(o: Option<String>) -> Option<Seq<char>> {
    match o {
        Some(s) => Some(s@),
        None => None,
    }
}

pub open spec fn opt_text(o: Option<String>) -> Seq<char> {
    match o {
        Some(s) => s@,
        None => Seq::empty(),
    }
}

impl ToolCallDelta {
    pub open spec fn event(self) -> EventView {
        EventView::ToolCall {
            index: self.index,
            id: opt_view(self.id),
            name: opt_text(self.name),
            arguments: opt_text(self.arguments),
        }
    }
}

impl View for StreamEvent {
    type V = EventView;

    open spec fn view(&self) -> EventView {
        match self {
            StreamEvent::Text(s) => EventView::Text(s@),
            StreamEvent::ToolCall(d) => d.event(),
            StreamEvent::Finish(f) => EventView::Finish(*f),
            StreamEvent::Usage(u) => EventView::Usage(*u),
        }
    }
}

pub open spec fn stop_text() -> Seq<char> {
    seq!['s', 't', 'o', 'p']
}

pub open spec fn length_text() -> Seq<char> {
    seq!['l', 'e', 'n', 'g', 't', 'h']
}

pub open spec fn tool_calls_text() -> Seq<char> {
    seq!['t', 'o', 'o', 'l', '_', 'c', 'a', 'l', 'l', 's']
}

pub open spec fn content_filter_text() -> Seq<char> {
    seq!['c', 'o', 'n', 't', 'e', 'n', 't', '_', 'f', 'i', 'l', 't', 'e', 'r']
}

/// The OpenAI-style finish-reason table; anything unrecognised is a normal stop.
pub open spec fn spec_finish_reason(wire: Seq<char>) -> FinishReason {
    if wire == stop_text() {
        FinishReason::Stop
    } else if wire == length_text() {
        FinishReason::OutputTokens
    } else if wire == tool_calls_text() {
        FinishReason::ToolCalls
    } else if wire == content_filter_text() {
        FinishReason::ContentFilter
    } else {
        FinishReason::Stop
    }
}

/// Maps an OpenAI-style `finish_reason` to a `FinishReason`; never fails.
pub fn finish_reason_from_wire(wire: &str) -> (r: FinishReason)
    ensures
        r == spec_finish_reason(wire@),
{
    proof {
        reveal_strlit("stop");
        reveal_strlit("length");
        reveal_strlit("tool_calls");
        reveal_strlit("content_filter");
        assert("stop"@ =~= stop_text());
        assert("length"@ =~= length_text());
        assert("tool_calls"@ =~= tool_calls_text());
        assert("content_filter"@ =~= content_filter_text());
    }
    if str_eq(wire, "stop") {
        FinishReason::Stop
    } else if str_eq(wire, "length") {
        FinishReason::OutputTokens
    } else if str_eq(wire, "tool_calls") {
        FinishReason::ToolCalls
    } else if str_eq(wire, "content_filter") {
        FinishReason::ContentFilter
    } else {
        FinishReason::Stop
    }
}

pub open spec fn initial_state() -> StreamState {
    StreamState {
        parts: Seq::empty(),
        slots: Map::empty(),
        usage: Usage { prompt_tokens: None, completion_tokens: None },
        finish: FinishReason::Unfinished,
    }
}

pub open spec fn is_open_text(p: PartView) -> bool {
    match p {
        PartView::Text { finished, .. } => !finished,
        _ => false,
    }
}

pub open spec fn text_of(p: PartView) -> Seq<char> {
    match p {
        PartView::Text { content, .. } => content,
        _ => Seq::empty(),
    }
}

/// Parts after a text delta `d`.
pub open spec fn append_text(parts: Seq<PartView>, d: Seq<char>) -> Seq<PartView> {
    if parts.len() > 0 && is_open_text(parts.last()) {
        parts.update(
            parts.len() - 1,
            PartView::Text { content: text_of(parts.last()) + d, finished: false },
        )
    } else {
        parts.push(PartView::Text { content: d, finished: false })
    }
}

/// A function-call part after one more delta; finished calls do not change.
pub open spec fn merge_call(
    p: PartView,
    id: Option<Seq<char>>,
    name: Seq<char>,
    arguments: Seq<char>,
) -> PartView {
    match p {
        PartView::Call { id: old_id, name: old_name, arguments: old_args, finished } => {
            if finished {
                p
            } else {
                PartView::Call {
                    id: if id is Some {
                        id
                    } else {
                        old_id
                    },
                    name: old_name + name,
                    arguments: old_args + arguments,
                    finished: false,
                }
            }
        },
        _ => p,
    }
}

pub open spec fn has_slot(slots: Map<u32, int>, index: u32) -> bool {
    slots.contains_key(index)
}

pub open spec fn slot_position(slots: Map<u32, int>, index: u32) -> int {
    slots[index]
}

/// The argument buffer turned into JSON text when the call finishes.
pub open spec fn finalized_arguments(buffer: Seq<char>) -> Seq<char> {
    if is_json(buffer) {
        buffer
    } else {
        empty_object()
    }
}

pub open spec fn finish_part(p: PartView) -> PartView {
    match p {
        PartView::Text { content, .. } => PartView::Text { content, finished: true },
        PartView::Call { id, name, arguments, finished } => {
            if finished {
                p
            } else {
                PartView::Call {
                    id,
                    name,
                    arguments: finalized_arguments(arguments),
                    finished: true,
                }
            }
        },
    }
}

/// The accumulator after one event.
pub open spec fn step(s: StreamState, e: EventView) -> StreamState {
    match e {
        EventView::Text(d) => StreamState { parts: append_text(s.parts, d), ..s },
        EventView::ToolCall { index, id, name, arguments } => {
            if has_slot(s.slots, index) {
                let pos = slot_position(s.slots, index);
                StreamState {
                    parts: s.parts.update(pos, merge_call(s.parts[pos], id, name, arguments)),
                    ..s
                }
            } else {
                StreamState {
                    parts: s.parts.push(PartView::Call { id, name, arguments, finished: false }),
                    slots: s.slots.insert(index, s.parts.len() as int),
                    ..s
                }
            }
        },
        EventView::Finish(reason) => StreamState {
            parts: Seq::new(s.parts.len(), |i: int| finish_part(s.parts[i])),
            finish: reason,
            ..s
        },
        EventView::Usage(u) => StreamState {
            usage: Usage {
                prompt_tokens: Some(u.prompt_tokens),
                completion_tokens: Some(u.completion_tokens),
            },
            ..s
        },
    }
}

/// The accumulator after a sequence of events, applied in order.
pub open spec fn fold_events(s: StreamState, es: Seq<EventView>) -> StreamState
    decreases es.len(),
{
    if es.len() == 0 {
        s
    } else {
        step(fold_events(s, es.drop_last()), es.last())
    }
}

pub open spec fn choice_events(c: StreamChoice) -> Seq<EventView> {
    (match c.content {
        Some(t) => seq![EventView::Text(t@)],
        None => Seq::empty(),
    }) + Seq::new(c.tool_calls@.len(), |j: int| c.tool_calls@[j].event()) + (match c.finish_reason {
        Some(f) => seq![EventView::Finish(spec_finish_reason(f@))],
        None => Seq::empty(),
    })
}

pub open spec fn choices_events(cs: Seq<StreamChoice>) -> Seq<EventView>
    decreases cs.len(),
{
    if cs.len() == 0 {
        Seq::empty()
    } else {
        choices_events(cs.drop_last()) + choice_events(cs.last())
    }
}

/// The events a chunk stands for: its usage report, then each choice's text,
/// tool-call fragments and finish reason.
pub open spec fn chunk_events(c: StreamChunk) -> Seq<EventView> {
    (match c.usage {
        Some(u) => seq![EventView::Usage(u)],
        None => Seq::empty(),
    }) + choices_events(c.choices@)
}

pub proof fn lemma_fold_append(s: StreamState, a: Seq<EventView>, b: Seq<EventView>)
    ensures
        fold_events(s, a + b) == fold_events(fold_events(s, a), b),
    decreases b.len(),
{
    if b.len() == 0 {
        assert(a + b =~= a);
    } else {
        lemma_fold_append(s, a, b.drop_last());
        assert((a + b).drop_last() =~= a + b.drop_last());
        assert((a + b).last() == b.last());
    }
}

proof fn lemma_fold_push(s: StreamState, a: Seq<EventView>, e: EventView)
    ensures
        fold_events(s, a.push(e)) == step(fold_events(s, a), e),
{
    assert(a.push(e).drop_last() =~= a);
}

/// Mathematical form of an exec part (only text and function calls occur here).
pub open spec fn part_view(p: Part) -> PartView {
    match p {
        Part::Text { content, finished } => PartView::Text { content: content@, finished },
        Part::FunctionCall { id, name, arguments, finished, .. } => PartView::Call {
            id: opt_view(id),
            name: name@,
            arguments: arguments@,
            finished,
        },
        _ => PartView::Text { content: Seq::empty(), finished: true },
    }
}

pub open spec fn parts_view(ps: Seq<Part>) -> Seq<PartView> {
    Seq::new(ps.len(), |i: int| part_view(ps[i]))
}

pub open spec fn accumulable(p: Part) -> bool {
    match p {
        Part::Text { .. } => true,
        Part::FunctionCall { signature, .. } => signature is None,
        _ => false,
    }
}

/// Folds streamed events into the state of one assistant message.
pub struct StreamAccumulator {
    parts: Vec<Part>,
    slots: HashMap<u32, usize>,
    usage: Usage,
    finish: FinishReason,
}

impl View for StreamAccumulator {
    type V = StreamState;

    closed spec fn view(&self) -> StreamState {
        StreamState {
            parts: parts_view(self.parts@),
            slots: Map::new(|k: u32| self.slots@.contains_key(k), |k: u32| self.slots@[k] as int),
            usage: self.usage,
            finish: self.finish,
        }
    }
}

fn finalize_arguments(buffer: String) -> (r: String)
    ensures
        r@ == finalized_arguments(buffer@),
{
    if json_is_valid(buffer.as_str()) {
        buffer
    } else {
        empty_object_text()
    }
}

fn finished_part(p: &Part) -> (r: Part)
    requires
        accumulable(*p),
    ensures
        accumulable(r),
        part_view(r) == finish_part(part_view(*p)),
{
    match p {
        Part::Text { content, .. } => Part::Text { content: content.clone(), finished: true },
        Part::FunctionCall { id, name, arguments, signature, finished } => {
            if *finished {
                Part::FunctionCall {
                    id: copy_opt(id),
                    name: name.clone(),
                    arguments: arguments.clone(),
                    signature: None,
                    finished: true,
                }
            } else {
                Part::FunctionCall {
                    id: copy_opt(id),
                    name: name.clone(),
                    arguments: finalize_arguments(arguments.clone()),
                    signature: None,
                    finished: true,
                }
            }
        },
        _ => Part::Text { content: String::new(), finished: true },
    }
}

fn merged_call(p: &Part, delta: &ToolCallDelta) -> (r: Part)
    requires
        accumulable(*p),
    ensures
        accumulable(r),
        part_view(r) == merge_call(
            part_view(*p),
            opt_view(delta.id),
            opt_text(delta.name),
            opt_text(delta.arguments),
        ),
{
    match p {
        Part::FunctionCall { id, name, arguments, finished, .. } => {
            if *finished {
                p.duplicate()
            } else {
                let new_id = match &delta.id {
                    Some(i) => Some(i.clone()),
                    None => copy_opt(id),
                };
                let mut new_name = name.clone();
                if let Some(n) = &delta.name {
                    new_name.append(n.as_str());
                }
                let mut new_args = arguments.clone();
                if let Some(a) = &delta.arguments {
                    new_args.append(a.as_str());
                }
                proof {
                    assert(opt_text(delta.name) == Seq::<char>::empty() ==> name@ + opt_text(
                        delta.name,
                    ) =~= name@);
                    assert(opt_text(delta.arguments) == Seq::<char>::empty() ==> arguments@
                        + opt_text(delta.arguments) =~= arguments@);
                }
                Part::FunctionCall {
                    id: new_id,
                    name: new_name,
                    arguments: new_args,
                    signature: None,
                    finished: false,
                }
            }
        },
        _ => p.duplicate(),
    }
}

impl StreamAccumulator {
    /// Well-formedness: only text and function-call parts, and a call-index
    /// table with distinct indices pointing at parts.
    pub closed spec fn wf(&self) -> bool {
        &&& forall|i: int| 0 <= i < self.parts@.len() ==> #[trigger] accumulable(self.parts@[i])
        &&& forall|k: u32| #[trigger] self.slots@.contains_key(k) ==> self.slots@[k] < self.parts@.len()
    }

    /// An empty assistant message, no usage, unfinished.
    pub fn new() -> (r: StreamAccumulator)
        ensures
            r.wf(),
            r@ == initial_state(),
    {
        let r = StreamAccumulator {
            parts: Vec::new(),
            slots: HashMap::new(),
            usage: Usage::empty(),
            finish: FinishReason::Unfinished,
        };
        assert(r@.parts =~= initial_state().parts);
        assert(r@.slots =~= initial_state().slots);
        r
    }

    fn find_slot(&self, index: u32) -> (r: Option<usize>)
        requires
            self.wf(),
        ensures
            r is Some <==> has_slot(self@.slots, index),
            r matches Some(pos) ==> pos == slot_position(self@.slots, index) && pos
                < self.parts@.len(),
    {
        broadcast use vstd::std_specs::hash::group_hash_axioms;

        match self.slots.get(&index) {
            Some(pos) => Some(*pos),
            None => None,
        }
    }

    /// Applies one event.
    pub fn apply_event(&mut self, e: StreamEvent)
        requires
            old(self).wf(),
        ensures
            final(self).wf(),
            final(self)@ == step(old(self)@, e@),
    {
        match e {
            StreamEvent::Text(d) => {
                let n = self.parts.len();
                let open = n > 0 && match &self.parts[n - 1] {
                    Part::Text { finished, .. } => !*finished,
                    _ => false,
                };
                if open {
                    let last = self.parts.pop().unwrap();
                    match last {
                        Part::Text { content, finished } => {
                            let mut content = content;
                            content.append(d.as_str());
                            self.parts.push(Part::Text { content, finished });
                        },
                        other => {
                            self.parts.push(other);
                        },
                    }
                } else {
                    self.parts.push(Part::Text { content: d, finished: false });
                }
                proof {
                    assert(self@.parts =~= append_text(old(self)@.parts, e@->Text_0));
                    assert(self@.slots =~= old(self)@.slots);
                }
            },
            StreamEvent::ToolCall(delta) => {
                match self.find_slot(delta.index) {
                    Some(pos) => {
                        let updated = merged_call(&self.parts[pos], &delta);
                        self.parts.set(pos, updated);
                        proof {
                            assert(self@.parts =~= old(self)@.parts.update(
                                pos as int,
                                merge_call(
                                    old(self)@.parts[pos as int],
                                    opt_view(delta.id),
                                    opt_text(delta.name),
                                    opt_text(delta.arguments),
                                ),
                            ));
                            assert(self@.slots =~= old(self)@.slots);
                        }
                    },
                    None => {
                        let n = self.parts.len();
                        let name = match delta.name {
                            Some(s) => s,
                            None => String::new(),
                        };
                        let arguments = match delta.arguments {
                            Some(s) => s,
                            None => String::new(),
                        };
                        self.parts.push(
                            Part::FunctionCall {
                                id: delta.id,
                                name,
                                arguments,
                                signature: None,
                                finished: false,
                            },
                        );
                        proof {
                            broadcast use vstd::std_specs::hash::group_hash_axioms;
                        }
                        self.slots.insert(delta.index, n);
                        proof {
                            assert(self@.parts =~= old(self)@.parts.push(
                                PartView::Call {
                                    id: opt_view(delta.id),
                                    name: opt_text(delta.name),
                                    arguments: opt_text(delta.arguments),
                                    finished: false,
                                },
                            ));
                            assert(self@.slots =~= old(self)@.slots.insert(delta.index, n as int));
                        }
                    },
                }
            },
            StreamEvent::Finish(reason) => {
                let n = self.parts.len();
                let mut i: usize = 0;
                while i < n
                    invariant
                        n == self.parts@.len(),
                        n == old(self).parts@.len(),
                        i <= n,
                        self.slots == old(self).slots,
                        self.usage == old(self).usage,
                        self.finish == old(self).finish,
                        forall|j: int| 0 <= j < n ==> #[trigger] accumulable(self.parts@[j]),
                        forall|j: int|
                            0 <= j < i ==> part_view(#[trigger] self.parts@[j]) == finish_part(
                                old(self)@.parts[j],
                            ),
                        forall|j: int| i <= j < n ==> #[trigger] self.parts@[j] == old(self).parts@[j],
                    decreases n - i,
                {
                    let p = finished_part(&self.parts[i]);
                    self.parts.set(i, p);
                    i = i + 1;
                }
                self.finish = reason;
                proof {
                    assert(self@.parts =~= Seq::new(
                        old(self)@.parts.len(),
                        |j: int| finish_part(old(self)@.parts[j]),
                    ));
                    assert(self@.slots =~= old(self)@.slots);
                }
            },
            StreamEvent::Usage(u) => {
                self.usage = Usage {
                    prompt_tokens: Some(u.prompt_tokens),
                    completion_tokens: Some(u.completion_tokens),
                };
            },
        }
    }

    fn apply_choice(&mut self, c: &StreamChoice)
        requires
            old(self).wf(),
        ensures
            final(self).wf(),
            final(self)@ == fold_events(old(self)@, choice_events(*c)),
    {
        let ghost start = self@;
        let ghost text_evs: Seq<EventView> = match &c.content {
            Some(t) => seq![EventView::Text(t@)],
            None => Seq::empty(),
        };
        let ghost tool_evs: Seq<EventView> = Seq::new(
            c.tool_calls@.len(),
            |j: int| c.tool_calls@[j].event(),
        );
        let ghost fin_evs: Seq<EventView> = match &c.finish_reason {
            Some(f) => seq![EventView::Finish(spec_finish_reason(f@))],
            None => Seq::empty(),
        };
        if let Some(t) = &c.content {
            self.apply_event(StreamEvent::Text(t.clone()));
            proof {
                lemma_fold_push(start, Seq::empty(), EventView::Text(t@));
                assert(Seq::<EventView>::empty().push(EventView::Text(t@)) =~= text_evs);
            }
        }
        let ghost after_text = self@;
        assert(after_text == fold_events(start, text_evs));
        let mut j: usize = 0;
        while j < c.tool_calls.len()
            invariant
                self.wf(),
                j <= c.tool_calls@.len(),
                tool_evs == Seq::new(c.tool_calls@.len(), |j: int| c.tool_calls@[j].event()),
                self@ == fold_events(after_text, tool_evs.take(j as int)),
            decreases c.tool_calls@.len() - j,
        {
            let d = &c.tool_calls[j];
            let delta = ToolCallDelta {
                index: d.index,
                id: copy_opt(&d.id),
                name: copy_opt(&d.name),
                arguments: copy_opt(&d.arguments),
            };
            self.apply_event(StreamEvent::ToolCall(delta));
            proof {
                lemma_fold_push(after_text, tool_evs.take(j as int), tool_evs[j as int]);
                assert(tool_evs.take(j as int).push(tool_evs[j as int]) =~= tool_evs.take(
                    j + 1,
                ));
            }
            j = j + 1;
        }
        assert(tool_evs.take(c.tool_calls@.len() as int) =~= tool_evs);
        let ghost after_tools = self@;
        if let Some(f) = &c.finish_reason {
            self.apply_event(StreamEvent::Finish(finish_reason_from_wire(f.as_str())));
            proof {
                lemma_fold_push(after_tools, Seq::empty(), EventView::Finish(spec_finish_reason(f@)));
                assert(Seq::<EventView>::empty().push(EventView::Finish(spec_finish_reason(f@))) =~= fin_evs);
            }
        }
        proof {
            lemma_fold_append(start, text_evs, tool_evs);
            lemma_fold_append(start, text_evs + tool_evs, fin_evs);
            assert(choice_events(*c) == text_evs + tool_evs + fin_evs);
        }
    }

    /// Applies every update that a chunk carries, in order.
    pub fn apply_chunk(&mut self, chunk: &StreamChunk)
        requires
            old(self).wf(),
        ensures
            final(self).wf(),
            final(self)@ == fold_events(old(self)@, chunk_events(*chunk)),
    {
        let ghost start = self@;
        let ghost usage_evs: Seq<EventView> = match chunk.usage {
            Some(u) => seq![EventView::Usage(u)],
            None => Seq::empty(),
        };
        if let Some(u) = chunk.usage {
            self.apply_event(StreamEvent::Usage(u));
            proof {
                lemma_fold_push(start, Seq::empty(), EventView::Usage(u));
                assert(Seq::<EventView>::empty().push(EventView::Usage(u)) =~= usage_evs);
            }
        }
        let ghost after_usage = self@;
        let mut i: usize = 0;
        while i < chunk.choices.len()
            invariant
                self.wf(),
                i <= chunk.choices@.len(),
                self@ == fold_events(after_usage, choices_events(chunk.choices@.take(i as int))),
            decreases chunk.choices@.len() - i,
        {
            let ghost before = self@;
            self.apply_choice(&chunk.choices[i]);
            proof {
                let cs = chunk.choices@.take(i + 1);
                assert(cs.drop_last() =~= chunk.choices@.take(i as int));
                assert(cs.last() == chunk.choices@[i as int]);
                lemma_fold_append(
                    after_usage,
                    choices_events(chunk.choices@.take(i as int)),
                    choice_events(chunk.choices@[i as int]),
                );
            }
            i = i + 1;
        }
        proof {
            assert(chunk.choices@.take(chunk.choices@.len() as int) =~= chunk.choices@);
            lemma_fold_append(start, usage_evs, choices_events(chunk.choices@));
        }
    }

    /// The full accumulated response so far: one assistant message.
    pub fn snapshot(&self) -> (r: Response)
        requires
            self.wf(),
        ensures
            r.data@.len() == 1,
            r.data@[0] is Assistant,
            parts_view(r.data@[0].spec_parts()) == self@.parts,
            forall|i: int|
                0 <= i < r.data@[0].spec_parts().len() ==> #[trigger] accumulable(
                    r.data@[0].spec_parts()[i],
                ),
            r.usage == self@.usage,
            r.finish == self@.finish,
    {
        let parts = crate::model::duplicate_parts(&self.parts);
        proof {
            assert forall|i: int| 0 <= i < parts@.len() implies part_view(parts@[i]) == part_view(
                self.parts@[i],
            ) by {
                assert(parts@[i].same_as(self.parts@[i]));
                assert(accumulable(self.parts@[i]));
            }
            assert forall|i: int| 0 <= i < parts@.len() implies #[trigger] accumulable(parts@[i]) by {
                assert(parts@[i].same_as(self.parts@[i]));
                assert(accumulable(self.parts@[i]));
            }
            assert(parts_view(parts@) =~= parts_view(self.parts@));
        }
        let mut data: Vec<Message> = Vec::new();
        data.push(Message::Assistant(parts));
        Response { data, usage: self.usage, finish: self.finish }
    }

    /// The accumulated response, consuming the accumulator.
    pub fn into_response(self) -> (r: Response)
        requires
            self.wf(),
        ensures
            r.data@.len() == 1,
            r.data@[0] is Assistant,
            parts_view(r.data@[0].spec_parts()) == self@.parts,
            forall|i: int|
                0 <= i < r.data@[0].spec_parts().len() ==> #[trigger] accumulable(
                    r.data@[0].spec_parts()[i],
                ),
            r.usage == self@.usage,
            r.finish == self@.finish,
    {
        let mut data: Vec<Message> = Vec::new();
        data.push(Message::Assistant(self.parts));
        Response { data, usage: self.usage, finish: self.finish }
    }
}


/// Concatenation of text fragments, in order.
pub open spec fn concat_all(ds: Seq<Seq<char>>) -> Seq<char>
    decreases ds.len(),
{
    if ds.len() == 0 {
        Seq::empty()
    } else {
        concat_all(ds.drop_last()) + ds.last()
    }
}

/// One text-delta event per fragment.
pub open spec fn text_events(ds: Seq<Seq<char>>) -> Seq<EventView> {
    Seq::new(ds.len(), |i: int| EventView::Text(ds[i]))
}

proof fn lemma_text_fold(ds: Seq<Seq<char>>)
    requires
        ds.len() >= 1,
    ensures
        fold_events(initial_state(), text_events(ds)).parts == seq![
            PartView::Text { content: concat_all(ds), finished: false },
        ],
    decreases ds.len(),
{
    let es = text_events(ds);
    assert(es.drop_last() =~= text_events(ds.drop_last()));
    if ds.len() == 1 {
        assert(ds.drop_last().len() == 0);
        assert(concat_all(ds) =~= ds.last());
        assert(append_text(Seq::empty(), ds.last()) =~= seq![
            PartView::Text { content: ds.last(), finished: false },
        ]);
    } else {
        lemma_text_fold(ds.drop_last());
        let prev = fold_events(initial_state(), es.drop_last()).parts;
        assert(is_open_text(prev.last()));
        assert(append_text(prev, ds.last()) =~= seq![
            PartView::Text { content: concat_all(ds), finished: false },
        ]);
    }
}

proof fn lemma_concat_prefix(ds: Seq<Seq<char>>, k: int)
    requires
        0 <= k <= ds.len(),
    ensures
        concat_all(ds.take(k)).is_prefix_of(concat_all(ds)),
    decreases ds.len(),
{
    if k == ds.len() {
        assert(ds.take(k) =~= ds);
    } else {
        assert(ds.drop_last().take(k) =~= ds.take(k));
        lemma_concat_prefix(ds.drop_last(), k);
        let a = concat_all(ds.take(k));
        let b = concat_all(ds.drop_last());
        assert(concat_all(ds) == b + ds.last());
        assert(a =~= (b + ds.last()).subrange(0, a.len() as int));
    }
}

/// Streamed text deltas d1..dN accumulate into a single text part whose
/// content is exactly their concatenation; the snapshot after the first k
/// deltas holds the concatenation of those k, which is a prefix of the final text.
pub proof fn lemma_text_deltas_concatenate(ds: Seq<Seq<char>>, k: int)
    requires
        1 <= k <= ds.len(),
    ensures
        fold_events(initial_state(), text_events(ds)).parts == seq![
            PartView::Text { content: concat_all(ds), finished: false },
        ],
        fold_events(initial_state(), text_events(ds.take(k))).parts == seq![
            PartView::Text { content: concat_all(ds.take(k)), finished: false },
        ],
        concat_all(ds.take(k)).is_prefix_of(concat_all(ds)),
{
    lemma_text_fold(ds);
    lemma_text_fold(ds.take(k));
    lemma_concat_prefix(ds, k);
}

pub open spec fn tool_index(e: EventView) -> u32 {
    match e {
        EventView::ToolCall { index, .. } => index,
        _ => 0,
    }
}

pub open spec fn tool_arguments(e: EventView) -> Seq<char> {
    match e {
        EventView::ToolCall { arguments, .. } => arguments,
        _ => Seq::empty(),
    }
}

pub open spec fn tool_name(e: EventView) -> Seq<char> {
    match e {
        EventView::ToolCall { name, .. } => name,
        _ => Seq::empty(),
    }
}

pub open spec fn call_name(p: PartView) -> Seq<char> {
    match p {
        PartView::Call { name, .. } => name,
        _ => Seq::empty(),
    }
}

/// Concatenated name fragments of the tool-call events tagged `index`.
pub open spec fn names_for(es: Seq<EventView>, index: u32) -> Seq<char>
    decreases es.len(),
{
    if es.len() == 0 {
        Seq::empty()
    } else {
        names_for(es.drop_last(), index) + (if es.last() is ToolCall && tool_index(es.last()) == index {
            tool_name(es.last())
        } else {
            Seq::empty()
        })
    }
}

pub open spec fn call_arguments(p: PartView) -> Seq<char> {
    match p {
        PartView::Call { arguments, .. } => arguments,
        _ => Seq::empty(),
    }
}

pub open spec fn is_open_call(p: PartView) -> bool {
    match p {
        PartView::Call { finished, .. } => !finished,
        _ => false,
    }
}

/// Concatenated argument fragments of the tool-call events tagged `index`.
pub open spec fn arguments_for(es: Seq<EventView>, index: u32) -> Seq<char>
    decreases es.len(),
{
    if es.len() == 0 {
        Seq::empty()
    } else {
        arguments_for(es.drop_last(), index) + (if es.last() is ToolCall && tool_index(es.last())
            == index {
            tool_arguments(es.last())
        } else {
            Seq::empty()
        })
    }
}

spec fn index_occurs(es: Seq<EventView>, y: u32) -> bool {
    exists|i: int| 0 <= i < es.len() && #[trigger] tool_index(es[i]) == y
}

spec fn tool_fold_inv(s: StreamState, es: Seq<EventView>) -> bool {
    &&& forall|k: int| 0 <= k < s.parts.len() ==> #[trigger] is_open_call(s.parts[k])
    &&& forall|x: u32| #[trigger] s.slots.contains_key(x) ==> 0 <= s.slots[x] < s.parts.len()
    &&& forall|x: u32, y: u32|
        #[trigger] s.slots.contains_key(x) && #[trigger] s.slots.contains_key(y) && x != y ==> s.slots[x]
            != s.slots[y]
    &&& forall|x: u32|
        #[trigger] s.slots.contains_key(x) ==> call_arguments(s.parts[s.slots[x]]) == arguments_for(
            es,
            x,
        )
    &&& forall|x: u32| !s.slots.contains_key(x) ==> #[trigger] arguments_for(es, x) == Seq::<char>::empty()
    &&& forall|x: u32|
        #[trigger] s.slots.contains_key(x) ==> call_name(s.parts[s.slots[x]]) == names_for(es, x)
    &&& forall|x: u32| !s.slots.contains_key(x) ==> #[trigger] names_for(es, x) == Seq::<char>::empty()
    &&& forall|x: u32| s.slots.contains_key(x) <==> #[trigger] index_occurs(es, x)
}

proof fn lemma_tool_fold(es: Seq<EventView>)
    requires
        forall|i: int| 0 <= i < es.len() ==> #[trigger] es[i] is ToolCall,
    ensures
        tool_fold_inv(fold_events(initial_state(), es), es),
    decreases es.len(),
{
    if es.len() > 0 {
        let pre = es.drop_last();
        let e = es.last();
        assert forall|i: int| 0 <= i < pre.len() implies #[trigger] pre[i] is ToolCall by {
            assert(pre[i] == es[i]);
        }
        lemma_tool_fold(pre);
        let s = fold_events(initial_state(), pre);
        let t = step(s, e);
        assert(e is ToolCall);
        let x = tool_index(e);
        assert forall|y: u32| #[trigger]
            arguments_for(es, y) == arguments_for(pre, y) + (if y == x {
                tool_arguments(e)
            } else {
                Seq::<char>::empty()
            }) by {}
        assert forall|y: u32| y != x implies #[trigger] arguments_for(es, y) == arguments_for(pre, y) by {
            assert(arguments_for(es, y) =~= arguments_for(pre, y));
        }
        assert forall|y: u32| y != x implies #[trigger] names_for(es, y) == names_for(pre, y) by {
            assert(names_for(es, y) =~= names_for(pre, y));
        }
        assert(names_for(es, x) == names_for(pre, x) + tool_name(e));
        assert forall|y: u32| #[trigger] index_occurs(es, y) <==> (y == x || index_occurs(pre, y)) by {
            if exists|i: int| 0 <= i < es.len() && #[trigger] tool_index(es[i]) == y {
                let i = choose|i: int| 0 <= i < es.len() && #[trigger] tool_index(es[i]) == y;
                if i < pre.len() {
                    assert(tool_index(pre[i]) == y);
                }
            }
            if exists|i: int| 0 <= i < pre.len() && #[trigger] tool_index(pre[i]) == y {
                let i = choose|i: int| 0 <= i < pre.len() && #[trigger] tool_index(pre[i]) == y;
                assert(tool_index(es[i]) == y);
            }
            if y == x {
                assert(tool_index(es[es.len() - 1]) == y);
            }
        }
        if has_slot(s.slots, x) {
            let c = s.slots[x];
            assert(is_open_call(s.parts[c]));
            assert(t.slots == s.slots);
            assert forall|y: u32| #[trigger] t.slots.contains_key(y) implies call_arguments(
                t.parts[t.slots[y]],
            ) == arguments_for(es, y) by {
                if y != x {
                    assert(s.slots[y] != c);
                }
            }
            assert forall|k: int| 0 <= k < t.parts.len() implies #[trigger] is_open_call(t.parts[k]) by {
                assert(is_open_call(s.parts[k]));
            }
            assert forall|y: u32| #[trigger] t.slots.contains_key(y) implies call_name(
                t.parts[t.slots[y]],
            ) == names_for(es, y) by {
                if y != x {
                    assert(s.slots[y] != c);
                }
            }
        } else {
            let n = s.parts.len() as int;
            assert(t.slots == s.slots.insert(x, n));
            assert forall|y: u32| #[trigger] t.slots.contains_key(y) implies call_arguments(
                t.parts[t.slots[y]],
            ) == arguments_for(es, y) by {
                if y == x {
                    assert(arguments_for(es, x) =~= tool_arguments(e));
                } else {
                    assert(s.slots.contains_key(y));
                    assert(s.slots[y] < n);
                }
            }
            assert forall|y: u32| #[trigger] t.slots.contains_key(y) implies call_name(
                t.parts[t.slots[y]],
            ) == names_for(es, y) by {
                if y == x {
                    assert(names_for(es, x) =~= tool_name(e));
                } else {
                    assert(s.slots.contains_key(y));
                    assert(s.slots[y] < n);
                }
            }
            assert forall|y: u32, z: u32|
                #[trigger] t.slots.contains_key(y) && #[trigger] t.slots.contains_key(z) && y != z
                    implies t.slots[y] != t.slots[z] by {
                if y != x && z != x {
                    assert(s.slots.contains_key(y) && s.slots.contains_key(z));
                } else if y == x {
                    assert(s.slots.contains_key(z));
                } else {
                    assert(s.slots.contains_key(y));
                }
            }
            assert forall|k: int| 0 <= k < t.parts.len() implies #[trigger] is_open_call(t.parts[k]) by {
                if k < n {
                    assert(is_open_call(s.parts[k]));
                }
            }
        }
    }
}

/// Tool-call fragments never mix across call indices: after any sequence of
/// tool-call deltas, each index that occurred owns one function-call part whose
/// name and argument buffer are exactly the concatenations, in order, of the
/// name and argument fragments tagged with that index.
pub proof fn lemma_tool_arguments_stay_apart(es: Seq<EventView>, index: u32)
    requires
        forall|i: int| 0 <= i < es.len() ==> #[trigger] es[i] is ToolCall,
        exists|i: int| 0 <= i < es.len() && #[trigger] tool_index(es[i]) == index,
    ensures
        ({
            let s = fold_events(initial_state(), es);
            &&& has_slot(s.slots, index)
            &&& 0 <= slot_position(s.slots, index) < s.parts.len()
            &&& s.parts[slot_position(s.slots, index)] is Call
            &&& call_arguments(s.parts[slot_position(s.slots, index)]) == arguments_for(es, index)
            &&& call_name(s.parts[slot_position(s.slots, index)]) == names_for(es, index)
        }),
{
    lemma_tool_fold(es);
    let s = fold_events(initial_state(), es);
    assert(index_occurs(es, index));
    assert(s.slots.contains_key(index));
    assert(is_open_call(s.parts[s.slots[index]]));
}

/// Usage reports are running totals: after any events, the accumulated usage
/// is the last usage report received, never a sum of reports.
pub proof fn lemma_usage_is_latest_report(
    s: StreamState,
    es: Seq<EventView>,
    i: int,
    u: TokenCounts,
)
    requires
        0 <= i < es.len(),
        es[i] == EventView::Usage(u),
        forall|j: int| i < j < es.len() ==> !(#[trigger] es[j] is Usage),
    ensures
        fold_events(s, es).usage == (Usage {
            prompt_tokens: Some(u.prompt_tokens),
            completion_tokens: Some(u.completion_tokens),
        }),
    decreases es.len(),
{
    if i < es.len() - 1 {
        assert(es.drop_last()[i] == es[i]);
        assert forall|j: int| i < j < es.drop_last().len() implies !(
        #[trigger] es.drop_last()[j] is Usage) by {
            assert(es.drop_last()[j] == es[j]);
        }
        lemma_usage_is_latest_report(s, es.drop_last(), i, u);
        assert(!(es[es.len() - 1] is Usage));
    }
}

} // verus!

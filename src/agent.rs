//! Decision logic of the tool-calling agent loop.
//!
//! `AgentLoop` is a state machine. The caller performs each `AgentAction`
//! (a model request over `history()`, or one tool call) and hands the outcome
//! back. Each iteration appends the model's new messages, then one user message
//! with the responses to every function call found in them. The loop ends
//! when a response holds no function call, and fails when a function call
//! arrives without a tool server or after `max_iterations` model requests.
use vstd::prelude::*;
use crate::client::ClientError;
use crate::json::{error_object, error_payload};
use crate::model::{copy_opt, MediaPart, Message, Part, Response, Usage};

verus! {

/// Iteration cap used when the caller sets none.
pub const DEFAULT_MAX_ITERATIONS: usize = 10;

/// A function call that the model requested.
#[derive(Clone, Debug)]
pub struct ToolCall {
    pub id: Option<String>,
    pub name: String,
    pub arguments: String,
}

/// Mathematical form of a `ToolCall`.
pub struct CallView {
    pub id: Option<Seq<char>>,
    pub name: Seq<char>,
    pub arguments: Seq<char>,
}

impl View for ToolCall {
    type V = CallView;

    open spec fn view(&self) -> CallView {
        CallView {
            id: match self.id {
                Some(s) => Some(s@),
                None => None,
            },
            name: self.name@,
            arguments: self.arguments@,
        }
    }
}

/// What a tool returned: a JSON result and any media it attached.
#[derive(Clone, Debug)]
pub struct ToolOutput {
    pub response: String,
    pub parts: Vec<MediaPart>,
}

/// The next thing the caller must do.
#[derive(Debug)]
pub enum AgentAction {
    /// Send `history()` with the tool descriptors to the model.
    Request,
    /// Execute this tool call and report its outcome.
    CallTool(ToolCall),
    /// The turn is complete: every message produced since the start.
    Done(Response),
    /// The loop stopped on a configuration error.
    Fail(ClientError),
}

/// What the loop waits for.
#[derive(Clone, Copy, Debug, PartialEq, Eq, Structural)]
pub enum Phase {
    AwaitResponse,
    AwaitTool,
    Finished,
}

/// The call carried by a finished function-call part, if it is one.
pub open spec fn part_call(p: Part) -> Seq<CallView> {
    match p {
        Part::FunctionCall { id, name, arguments, finished, .. } => if finished {
            seq![
                CallView {
                    id: match id {
                        Some(s) => Some(s@),
                        None => None,
                    },
                    name: name@,
                    arguments: arguments@,
                },
            ]
        } else {
            Seq::empty()
        },
        _ => Seq::empty(),
    }
}

/// Finished function calls among parts, in order.
pub open spec fn part_calls(ps: Seq<Part>) -> Seq<CallView>
    decreases ps.len(),
{
    if ps.len() == 0 {
        Seq::empty()
    } else {
        part_calls(ps.drop_last()) + part_call(ps.last())
    }
}

/// Finished function calls among messages, in order.
pub open spec fn message_calls(ms: Seq<Message>) -> Seq<CallView>
    decreases ms.len(),
{
    if ms.len() == 0 {
        Seq::empty()
    } else {
        message_calls(ms.drop_last()) + part_calls(ms.last().spec_parts())
    }
}

pub open spec fn calls_view(cs: Seq<ToolCall>) -> Seq<CallView> {
    Seq::new(cs.len(), |i: int| cs[i]@)
}

pub open spec fn max_iterations_message() -> Seq<char> {
    "Max iterations reached in agent loop"@
}

pub open spec fn no_server_message() -> Seq<char> {
    "No server configured"@
}

/// The part that answers `call` with a tool's outcome: its result, or
/// `{"error": <message>}` when the tool failed.
pub open spec fn answers(p: Part, call: CallView, outcome: Result<ToolOutput, String>) -> bool {
    match p {
        Part::FunctionResponse { id, name, response, parts, finished } => {
            &&& (match id {
                Some(s) => Some(s@),
                None => None,
            }) == call.id
            &&& name@ == call.name
            &&& finished
            &&& match outcome {
                Ok(out) => response@ == out.response@ && parts@ == out.parts@,
                Err(e) => response@ == error_object(e@) && parts@.len() == 0,
            }
        },
        _ => false,
    }
}

fn collect_part_calls(parts: &Vec<Part>, calls: &mut Vec<ToolCall>)
    ensures
        calls_view(final(calls)@) == calls_view(old(calls)@) + part_calls(parts@),
{
    let ghost start = calls_view(calls@);
    let mut j: usize = 0;
    while j < parts.len()
        invariant
            j <= parts@.len(),
            calls_view(calls@) == start + part_calls(parts@.take(j as int)),
        decreases parts@.len() - j,
    {
        let ghost before = calls@;
        match &parts[j] {
            Part::FunctionCall { id, name, arguments, finished, .. } => {
                if *finished {
                    calls.push(
                        ToolCall { id: copy_opt(id), name: name.clone(), arguments: arguments.clone() },
                    );
                }
            },
            _ => {},
        }
        proof {
            assert(parts@.take(j + 1).drop_last() =~= parts@.take(j as int));
            assert(calls_view(calls@) =~= calls_view(before) + part_call(parts@[j as int]));
        }
        j = j + 1;
    }
    assert(parts@.take(parts@.len() as int) =~= parts@);
}

fn collect_calls(messages: &Vec<Message>) -> (r: Vec<ToolCall>)
    ensures
        calls_view(r@) == message_calls(messages@),
{
    let mut calls: Vec<ToolCall> = Vec::new();
    let mut i: usize = 0;
    assert(calls_view(calls@) =~= message_calls(messages@.take(0)));
    while i < messages.len()
        invariant
            i <= messages@.len(),
            calls_view(calls@) == message_calls(messages@.take(i as int)),
        decreases messages@.len() - i,
    {
        collect_part_calls(messages[i].parts(), &mut calls);
        proof {
            assert(messages@.take(i + 1).drop_last() =~= messages@.take(i as int));
        }
        i = i + 1;
    }
    assert(messages@.take(messages@.len() as int) =~= messages@);
    calls
}

fn copy_call(c: &ToolCall) -> (r: ToolCall)
    ensures
        r@ == c@,
{
    ToolCall { id: copy_opt(&c.id), name: c.name.clone(), arguments: c.arguments.clone() }
}

/// State of one agent conversation turn.
pub struct AgentLoop {
    max_iterations: usize,
    iteration: usize,
    has_server: bool,
    history: Vec<Message>,
    first_new: usize,
    usage: Usage,
    calls: Vec<ToolCall>,
    answered: Vec<Part>,
    phase: Phase,
    requests: Ghost<nat>,
}

impl AgentLoop {
    pub closed spec fn spec_history(&self) -> Seq<Message> {
        self.history@
    }

    /// Messages produced since the start of the turn.
    pub closed spec fn spec_trace(&self) -> Seq<Message> {
        self.history@.subrange(self.first_new as int, self.history@.len() as int)
    }

    pub closed spec fn spec_phase(&self) -> Phase {
        self.phase
    }

    pub closed spec fn spec_max_iterations(&self) -> nat {
        self.max_iterations as nat
    }

    pub closed spec fn spec_has_server(&self) -> bool {
        self.has_server
    }

    /// Model requests asked for so far.
    pub closed spec fn requests_issued(&self) -> nat {
        self.requests@
    }

    pub closed spec fn spec_usage(&self) -> Usage {
        self.usage
    }

    /// Function calls of the latest response not yet answered.
    pub closed spec fn pending_calls(&self) -> Seq<CallView> {
        calls_view(self.calls@).subrange(self.answered@.len() as int, self.calls@.len() as int)
    }

    /// Responses to this iteration's function calls so far.
    pub closed spec fn spec_answered(&self) -> Seq<Part> {
        self.answered@
    }

    /// Internal consistency; holds between any two steps.
    pub closed spec fn wf(&self) -> bool {
        &&& self.first_new <= self.history@.len()
        &&& self.answered@.len() <= self.calls@.len()
        &&& self.requests@ <= self.max_iterations
        &&& (self.phase == Phase::AwaitResponse ==> self.requests@ == self.iteration + 1
            && self.answered@.len() == 0)
        &&& (self.phase == Phase::AwaitTool ==> self.requests@ == self.iteration + 1
            && self.answered@.len() < self.calls@.len() && self.has_server)
        &&& self.iteration < self.max_iterations || self.phase == Phase::Finished
    }

    /// A turn over `messages`, with `preloaded` (resource contents fetched
    /// beforehand) appended as its first new messages. Returns the loop and its
    /// first action: a model request, or the iteration-cap error when the cap is 0.
    pub fn start(
        messages: Vec<Message>,
        preloaded: Vec<Message>,
        max_iterations: usize,
        has_server: bool,
    ) -> (r: (AgentLoop, AgentAction))
        ensures
            r.0.wf(),
            r.0.spec_history() == messages@ + preloaded@,
            r.0.spec_trace() == preloaded@,
            r.0.spec_max_iterations() == max_iterations,
            r.0.spec_has_server() == has_server,
            r.0.spec_usage() == Usage::zero_spec(),
            max_iterations > 0 ==> r.1 is Request && r.0.spec_phase() == Phase::AwaitResponse
                && r.0.requests_issued() == 1,
            max_iterations == 0 ==> r.0.spec_phase() == Phase::Finished && r.0.requests_issued() == 0
                && (r.1 matches AgentAction::Fail(ClientError::Config(m)) && m@ == max_iterations_message()),
    {
        let mut history = messages;
        let first_new = history.len();
        let mut pre = preloaded;
        history.append(&mut pre);
        let ghost requests: nat = if max_iterations > 0 {
            1
        } else {
            0
        };
        let phase = if max_iterations > 0 {
            Phase::AwaitResponse
        } else {
            Phase::Finished
        };
        let state = AgentLoop {
            max_iterations,
            iteration: 0,
            has_server,
            history,
            first_new,
            usage: Usage::zero(),
            calls: Vec::new(),
            answered: Vec::new(),
            phase,
            requests: Ghost(requests),
        };
        assert(state.spec_trace() =~= preloaded@);
        if max_iterations > 0 {
            (state, AgentAction::Request)
        } else {
            (state, AgentAction::Fail(ClientError::Config(String::from_str("Max iterations reached in agent loop"))))
        }
    }

    /// The full conversation so far, to send with the next request.
    pub fn history(&self) -> (r: &Vec<Message>)
        ensures
            r@ == self.spec_history(),
    {
        &self.history
    }

    /// Whether the loop waits for a model response.
    pub fn awaits_response(&self) -> (r: bool)
        ensures
            r == (self.spec_phase() == Phase::AwaitResponse),
    {
        self.phase == Phase::AwaitResponse
    }

    /// Whether the loop waits for a tool outcome.
    pub fn awaits_tool(&self) -> (r: bool)
        ensures
            r == (self.spec_phase() == Phase::AwaitTool),
    {
        self.phase == Phase::AwaitTool
    }

    /// Takes in the model's response. Its messages join the history and the
    /// trace, and its usage the running total. Without finished function calls
    /// the turn is done; with some, the first is handed out for execution, or
    /// the loop fails when no tool server is configured.
    pub fn on_response(&mut self, response: Response) -> (action: AgentAction)
        requires
            old(self).wf(),
            old(self).spec_phase() == Phase::AwaitResponse,
        ensures
            final(self).wf(),
            final(self).spec_max_iterations() == old(self).spec_max_iterations(),
            final(self).spec_has_server() == old(self).spec_has_server(),
            final(self).requests_issued() == old(self).requests_issued(),
            final(self).spec_usage() == old(self).spec_usage().spec_combine(response.usage),
            message_calls(response.data@).len() > 0 ==> final(self).spec_history() == old(self).spec_history() + response.data@
                && final(self).spec_trace() == old(self).spec_trace() + response.data@,
            message_calls(response.data@).len() == 0 ==> final(self).spec_phase() == Phase::Finished
                && (action matches AgentAction::Done(r) && r.data@ == old(self).spec_trace() + response.data@
                && r.usage == final(self).spec_usage() && r.finish == response.finish),
            message_calls(response.data@).len() > 0 && !old(self).spec_has_server() ==>
                final(self).spec_phase() == Phase::Finished
                && (action matches AgentAction::Fail(ClientError::Config(m)) && m@ == no_server_message()),
            message_calls(response.data@).len() > 0 && old(self).spec_has_server() ==>
                final(self).spec_phase() == Phase::AwaitTool
                && final(self).pending_calls() == message_calls(response.data@)
                && final(self).spec_answered().len() == 0
                && (action matches AgentAction::CallTool(c) && c@ == message_calls(response.data@)[0]),
    {
        let calls = collect_calls(&response.data);
        self.usage = self.usage.combine(&response.usage);
        let finish = response.finish;
        let ghost data = response.data@;
        let mut data_vec = response.data;
        self.history.append(&mut data_vec);
        assert(self.spec_trace() =~= old(self).spec_trace() + data);
        if calls.len() == 0 {
            self.phase = Phase::Finished;
            let trace = self.history.split_off(self.first_new);
            self.first_new = self.history.len();
            AgentAction::Done(Response { data: trace, usage: self.usage, finish })
        } else if !self.has_server {
            self.phase = Phase::Finished;
            AgentAction::Fail(ClientError::Config(String::from_str("No server configured")))
        } else {
            let first = copy_call(&calls[0]);
            self.calls = calls;
            self.answered = Vec::new();
            self.phase = Phase::AwaitTool;
            assert(self.pending_calls() =~= calls_view(self.calls@));
            AgentAction::CallTool(first)
        }
    }

    /// Takes in the outcome of the pending tool call. A failure becomes an
    /// `{"error": ...}` result for the model, never an error of the loop. Once
    /// every call of the iteration is answered, the responses join the history as
    /// one user message and the next model request follows, unless that would
    /// exceed the iteration cap.
    pub fn on_tool_result(&mut self, outcome: Result<ToolOutput, String>) -> (action: AgentAction)
        requires
            old(self).wf(),
            old(self).spec_phase() == Phase::AwaitTool,
        ensures
            final(self).wf(),
            final(self).spec_max_iterations() == old(self).spec_max_iterations(),
            final(self).spec_has_server() == old(self).spec_has_server(),
            final(self).spec_usage() == old(self).spec_usage(),
            ({
                let call = old(self).pending_calls()[0];
                let answered = old(self).spec_answered().push(
                    final(self).spec_answered().last(),
                );
                &&& old(self).pending_calls().len() > 1 ==> {
                    &&& final(self).spec_phase() == Phase::AwaitTool
                    &&& final(self).spec_history() == old(self).spec_history()
                    &&& final(self).spec_trace() == old(self).spec_trace()
                    &&& final(self).requests_issued() == old(self).requests_issued()
                    &&& final(self).spec_answered() == old(self).spec_answered().push(
                        final(self).spec_answered().last(),
                    )
                    &&& answers(final(self).spec_answered().last(), call, outcome)
                    &&& final(self).pending_calls() == old(self).pending_calls().drop_first()
                    &&& (action matches AgentAction::CallTool(c) && c@ == old(self).pending_calls()[1])
                }
                &&& old(self).pending_calls().len() == 1 ==> {
                    &&& final(self).spec_history() == old(self).spec_history().push(
                        final(self).spec_history().last(),
                    )
                    &&& final(self).spec_trace() == old(self).spec_trace().push(
                        final(self).spec_history().last(),
                    )
                    &&& final(self).spec_history().last() is User
                    &&& final(self).spec_history().last().spec_parts() == old(self).spec_answered().push(final(self).spec_history().last().spec_parts().last())
                    &&& answers(final(self).spec_history().last().spec_parts().last(), call, outcome)
                    &&& (old(self).requests_issued() < old(self).spec_max_iterations() ==> {
                        &&& final(self).spec_phase() == Phase::AwaitResponse
                        &&& final(self).requests_issued() == old(self).requests_issued() + 1
                        &&& action is Request
                    })
                    &&& (old(self).requests_issued() == old(self).spec_max_iterations() ==> {
                        &&& final(self).spec_phase() == Phase::Finished
                        &&& final(self).requests_issued() == old(self).requests_issued()
                        &&& (action matches AgentAction::Fail(ClientError::Config(m)) && m@ == max_iterations_message())
                    })
                }
            }),
    {
        let k = self.answered.len();
        let call = &self.calls[k];
        let part = match outcome {
            Ok(out) => Part::FunctionResponse {
                id: copy_opt(&call.id),
                name: call.name.clone(),
                response: out.response,
                parts: out.parts,
                finished: true,
            },
            Err(e) => Part::FunctionResponse {
                id: copy_opt(&call.id),
                name: call.name.clone(),
                response: error_payload(e.as_str()),
                parts: Vec::new(),
                finished: true,
            },
        };
        proof {
            assert(old(self).pending_calls()[0] == self.calls@[k as int]@);
        }
        self.answered.push(part);
        if self.answered.len() < self.calls.len() {
            let next = copy_call(&self.calls[k + 1]);
            proof {
                assert(self.pending_calls() =~= old(self).pending_calls().drop_first());
                assert(old(self).pending_calls()[1] == self.calls@[k + 1]@);
            }
            AgentAction::CallTool(next)
        } else {
            let mut answered: Vec<Part> = Vec::new();
            std::mem::swap(&mut answered, &mut self.answered);
            self.history.push(Message::User(answered));
            self.calls = Vec::new();
            self.iteration = self.iteration + 1;
            proof {
                assert(self.history@.drop_last() =~= old(self).history@);
                assert(self.spec_trace().drop_last() =~= old(self).spec_trace());
            }
            if self.iteration < self.max_iterations {
                self.phase = Phase::AwaitResponse;
                self.requests = Ghost(self.requests@ + 1);
                AgentAction::Request
            } else {
                self.phase = Phase::Finished;
                AgentAction::Fail(ClientError::Config(String::from_str("Max iterations reached in agent loop")))
            }
        }
    }

    /// Usage to report while a model turn is still streaming: the total of the
    /// finished turns combined with the turn's own running usage.
    pub fn running_usage(&self, turn: &Usage) -> (r: Usage)
        ensures
            r == self.spec_usage().spec_combine(*turn),
    {
        self.usage.combine(turn)
    }

    /// The cap on model requests: a running loop never asks for more.
    pub proof fn lemma_requests_within_cap(&self)
        requires
            self.wf(),
        ensures
            self.requests_issued() <= self.spec_max_iterations(),
            self.spec_phase() != Phase::Finished ==> self.requests_issued() >= 1,
    {
    }
}

} // verus!

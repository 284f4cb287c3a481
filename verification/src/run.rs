//! One conversation run as a state machine. The run decides; its caller does
//! the work on the outside world. Each step takes what that work gave (the
//! text of a completion, the failure of one, the outcome of a tool's work) and
//! gives the events to report and the next thing to do.

use crate::directive::{
    directive_text, extract_tool_call, invocation_of, is_body, is_name,
    lemma_directive_is_extracted, lemma_first_of_two_directives, lemma_no_directive_before,
    open_tag,
};
use crate::message::{
    events_view, messages_view, AgentEvent, EventKind, EventModel, InvocationModel, Message,
    MessageModel, Role, ToolInvocation,
};
use crate::registry::Registry;
use crate::text::{has_at, trimmed};
use crate::tool::{RequestModel, ResponseModel, Tool, ToolRequest, ToolResponse};
use vstd::prelude::*;
use vstd::string::StringExecFns;

verus! {

/// Where a run stands.
#[derive(Clone, Copy, Debug, PartialEq, Eq, Structural)]
pub enum Phase {
    /// A completion was asked for and has not come yet.
    AwaitingCompletion,
    /// A tool's work was asked for and has not ended yet.
    AwaitingTool,
    /// The model asked for no tool: the run ended as it should.
    Done,
    /// The budget of completions is spent: the run ended without a `done` event.
    Exhausted,
    /// A completion failed: the run ended with that error.
    Failed,
}

/// What the caller of a run is to do next.
#[derive(Clone, Debug)]
pub enum Action {
    /// Ask the completion endpoint for the next assistant message, on the
    /// run's history.
    Complete,
    /// Do the work that a tool asks for.
    Perform(ToolRequest),
    /// Nothing: the run is over.
    Stop,
    /// Nothing: the run is over, and failed with this message.
    Fail(String),
}

/// An action as contracts see it.
pub enum ActionModel {
    Complete,
    Perform(RequestModel),
    Stop,
    Fail(Seq<char>),
}

impl View for Action {
    type V = ActionModel;

    open spec fn view(&self) -> ActionModel {
        match *self {
            Action::Complete => ActionModel::Complete,
            Action::Perform(request) => ActionModel::Perform(request@),
            Action::Stop => ActionModel::Stop,
            Action::Fail(message) => ActionModel::Fail(message@),
        }
    }
}

/// What one step of a run gives: the events to report, in order, and the
/// next thing to do.
#[derive(Clone, Debug)]
pub struct Step {
    pub events: Vec<AgentEvent>,
    pub action: Action,
}

/// A step as contracts see it.
pub struct StepModel {
    pub events: Seq<EventModel>,
    pub action: ActionModel,
}

impl View for Step {
    type V = StepModel;

    open spec fn view(&self) -> StepModel {
        StepModel { events: events_view(self.events@), action: self.action@ }
    }
}

/// What the outside world hands to a run.
pub enum InputModel {
    /// The completion came, with this text.
    Completed(Seq<char>),
    /// The completion failed, with this message.
    CompletionFailed(Seq<char>),
    /// The work that a tool asked for ended.
    Responded(ResponseModel),
}

/// The payload of the event that reports the start of a tool.
pub open spec fn start_text(invocation: InvocationModel) -> Seq<char> {
    invocation.name + ": "@ + invocation.input
}

/// The observation for a tool name that is not registered.
pub open spec fn not_found_text(name: Seq<char>) -> Seq<char> {
    "Error: Tool '"@ + name + "' not found"@
}

/// The observation for a tool that failed with `message`.
pub open spec fn failure_text(message: Seq<char>) -> Seq<char> {
    "Error executing tool: "@ + message
}

/// The content of the message that carries `observation` back to the model.
pub open spec fn observation_text(observation: Seq<char>) -> Seq<char> {
    "<observation>\n"@ + observation + "\n</observation>"@
}

/// The observation that a tool's result stands for.
pub open spec fn observation_of(result: Result<Seq<char>, Seq<char>>) -> Seq<char> {
    match result {
        Ok(text) => text,
        Err(message) => failure_text(message),
    }
}

/// A history begins with the system message, goes on with the user's, and
/// from there on alternates between assistant and user.
pub open spec fn alternates(history: Seq<MessageModel>) -> bool {
    &&& history.len() >= 2
    &&& history[0].role == Role::System
    &&& forall|i: int|
        1 <= i < history.len() ==> (#[trigger] history[i]).role == if i % 2 == 1 {
            Role::User
        } else {
            Role::Assistant
        }
}

/// A run as contracts see it.
pub struct RunModel {
    /// The conversation so far.
    pub history: Seq<MessageModel>,
    /// The number of completions asked for so far.
    pub calls: nat,
    /// The number of completions that may be asked for.
    pub limit: nat,
    /// Where the run stands.
    pub phase: Phase,
    /// The invocation whose work is awaited.
    pub pending: Option<InvocationModel>,
}

impl RunModel {
    /// What holds of every run: the roles of its history alternate, no more
    /// completions were asked for than the limit allows, and the length of
    /// the history is what the number of completions and the phase make it:
    /// each completion adds one assistant message, each tool invocation one
    /// observation.
    pub open spec fn wf(self) -> bool {
        &&& alternates(self.history)
        &&& self.calls <= self.limit
        &&& match self.phase {
            Phase::AwaitingCompletion => {
                &&& self.calls >= 1
                &&& self.history.len() == 2 * self.calls
                &&& self.pending.is_none()
            },
            Phase::AwaitingTool => {
                &&& self.calls >= 1
                &&& self.history.len() == 2 * self.calls + 1
                &&& self.pending.is_some()
            },
            Phase::Done => {
                &&& self.calls >= 1
                &&& self.history.len() == 2 * self.calls + 1
                &&& self.pending.is_none()
            },
            Phase::Exhausted => {
                &&& self.calls == self.limit
                &&& self.history.len() == 2 * self.calls + 2
                &&& self.pending.is_none()
            },
            Phase::Failed => {
                &&& self.calls >= 1
                &&& self.history.len() == 2 * self.calls
                &&& self.pending.is_none()
            },
        }
    }

    /// The role of the last message of the history.
    pub open spec fn last_role(self) -> Role {
        self.history.last().role
    }

    /// A step that changes nothing and reports nothing.
    pub open spec fn idle(self) -> (RunModel, StepModel) {
        (self, StepModel { events: Seq::empty(), action: ActionModel::Stop })
    }

    /// The start of a run: the history holds the system prompt and the
    /// user's message. A first completion is asked for unless the limit is
    /// zero.
    pub open spec fn begin(prompt: Seq<char>, message: Seq<char>, limit: nat) -> (
        RunModel,
        StepModel,
    ) {
        let history = seq![
            MessageModel { role: Role::System, content: prompt },
            MessageModel { role: Role::User, content: message },
        ];
        if limit == 0 {
            (
                RunModel { history, calls: 0, limit, phase: Phase::Exhausted, pending: None },
                StepModel { events: Seq::empty(), action: ActionModel::Stop },
            )
        } else {
            (
                RunModel {
                    history,
                    calls: 1,
                    limit,
                    phase: Phase::AwaitingCompletion,
                    pending: None,
                },
                StepModel { events: Seq::empty(), action: ActionModel::Complete },
            )
        }
    }

    /// The end of an iteration with a tool: after the events `before`, the
    /// end of the tool is reported with the observation, the observation
    /// joins the history as a user message, and the next completion is asked
    /// for unless the budget is spent.
    pub open spec fn observe(self, before: Seq<EventModel>, observation: Seq<char>) -> (
        RunModel,
        StepModel,
    ) {
        let history = self.history.push(
            MessageModel { role: Role::User, content: observation_text(observation) },
        );
        let events = before.push(EventModel { kind: EventKind::ToolEnd, content: observation });
        if self.calls < self.limit {
            (
                RunModel {
                    history,
                    calls: self.calls + 1,
                    limit: self.limit,
                    phase: Phase::AwaitingCompletion,
                    pending: None,
                },
                StepModel { events, action: ActionModel::Complete },
            )
        } else {
            (
                RunModel {
                    history,
                    calls: self.calls,
                    limit: self.limit,
                    phase: Phase::Exhausted,
                    pending: None,
                },
                StepModel { events, action: ActionModel::Stop },
            )
        }
    }

    /// The step on the text of a completion. The text joins the history as an
    /// assistant message. Where it asks for no tool, the run is done. Where
    /// it asks for one, the start of the tool is reported; a tool that is not
    /// registered, or that asks for no work, ends the iteration at once with
    /// an observation that says so; otherwise the tool's work is asked for.
    /// Outside the phase that awaits a completion the step is idle.
    pub open spec fn on_completion<T: Tool>(self, registry: Registry<T>, text: Seq<char>) -> (
        RunModel,
        StepModel,
    ) {
        if self.phase != Phase::AwaitingCompletion {
            self.idle()
        } else {
            let history = self.history.push(MessageModel { role: Role::Assistant, content: text });
            match invocation_of(text) {
                None => (
                    RunModel {
                        history,
                        calls: self.calls,
                        limit: self.limit,
                        phase: Phase::Done,
                        pending: None,
                    },
                    StepModel {
                        events: seq![
                            EventModel { kind: EventKind::Done, content: Seq::empty() },
                        ],
                        action: ActionModel::Stop,
                    },
                ),
                Some(invocation) => {
                    let started = seq![
                        EventModel {
                            kind: EventKind::ToolStart,
                            content: start_text(invocation),
                        },
                    ];
                    let replied = RunModel {
                        history,
                        calls: self.calls,
                        limit: self.limit,
                        phase: Phase::AwaitingTool,
                        pending: Some(invocation),
                    };
                    match registry.lookup_spec(invocation.name) {
                        None => replied.observe(started, not_found_text(invocation.name)),
                        Some(tool) => match tool.plan_spec(invocation.input) {
                            Err(message) => replied.observe(started, failure_text(message)),
                            Ok(request) => (
                                replied,
                                StepModel {
                                    events: started,
                                    action: ActionModel::Perform(request),
                                },
                            ),
                        },
                    }
                },
            }
        }
    }

    /// The step on the failure of a completion: the run is over, and fails
    /// with the message of the failure. Nothing joins the history. Outside
    /// the phase that awaits a completion the step is idle.
    pub open spec fn on_failure(self, message: Seq<char>) -> (RunModel, StepModel) {
        if self.phase != Phase::AwaitingCompletion {
            self.idle()
        } else {
            (
                RunModel {
                    history: self.history,
                    calls: self.calls,
                    limit: self.limit,
                    phase: Phase::Failed,
                    pending: None,
                },
                StepModel { events: Seq::empty(), action: ActionModel::Fail(message) },
            )
        }
    }

    /// The step on the outcome of a tool's work: the tool gives its result
    /// for the pending input, and the iteration ends with the observation
    /// that the result stands for. Outside the phase that awaits a tool the
    /// step is idle.
    pub open spec fn on_response<T: Tool>(
        self,
        registry: Registry<T>,
        response: ResponseModel,
    ) -> (RunModel, StepModel) {
        if self.phase != Phase::AwaitingTool || self.pending.is_none() {
            self.idle()
        } else {
            let invocation = self.pending.unwrap();
            let observation = match registry.lookup_spec(invocation.name) {
                None => not_found_text(invocation.name),
                Some(tool) => observation_of(tool.finish_spec(invocation.input, response)),
            };
            self.observe(Seq::empty(), observation)
        }
    }

    /// The step on any input.
    pub open spec fn step<T: Tool>(self, registry: Registry<T>, input: InputModel) -> (
        RunModel,
        StepModel,
    ) {
        match input {
            InputModel::Completed(text) => self.on_completion(registry, text),
            InputModel::CompletionFailed(message) => self.on_failure(message),
            InputModel::Responded(response) => self.on_response(registry, response),
        }
    }

    /// The run after the inputs `inputs`, taken in order.
    pub open spec fn after<T: Tool>(self, registry: Registry<T>, inputs: Seq<InputModel>) -> RunModel
        decreases inputs.len(),
    {
        if inputs.len() == 0 {
            self
        } else {
            self.after(registry, inputs.drop_last()).step(registry, inputs.last()).0
        }
    }

    /// The number of completions asked for by the steps on `inputs`.
    pub open spec fn asked<T: Tool>(self, registry: Registry<T>, inputs: Seq<InputModel>) -> nat
        decreases inputs.len(),
    {
        if inputs.len() == 0 {
            0
        } else {
            let before = self.after(registry, inputs.drop_last());
            let more: nat = if before.step(registry, inputs.last()).1.action
                == ActionModel::Complete {
                1
            } else {
                0
            };
            self.asked(registry, inputs.drop_last()) + more
        }
    }
}

/// A run starts well formed.
pub proof fn lemma_begin_wf(prompt: Seq<char>, message: Seq<char>, limit: nat)
    ensures
        RunModel::begin(prompt, message, limit).0.wf(),
{
}

/// Every step keeps a run well formed: the roles of the history go on
/// alternating, and its last message is the user's while a completion is
/// awaited or the budget is spent, the assistant's once the run is done.
pub proof fn lemma_step_wf<T: Tool>(run: RunModel, registry: Registry<T>, input: InputModel)
    requires
        run.wf(),
    ensures
        run.step(registry, input).0.wf(),
        run.step(registry, input).0.limit == run.limit,
{
}

/// A step only ever appends to the history: what was there stays as it was
/// and where it was, and at most an assistant message and an observation
/// come after it.
pub proof fn lemma_history_grows<T: Tool>(run: RunModel, registry: Registry<T>, input: InputModel)
    ensures
        ({
            let next = run.step(registry, input).0;
            &&& run.history.len() <= next.history.len() <= run.history.len() + 2
            &&& next.history.subrange(0, run.history.len() as int) == run.history
        }),
{
}

/// The last message of a well-formed run is the user's observation right
/// after a tool call, and the assistant's when the run has just ended as it
/// should.
pub proof fn lemma_last_role(run: RunModel)
    requires
        run.wf(),
    ensures
        run.phase == Phase::AwaitingCompletion || run.phase == Phase::Exhausted
            ==> run.last_role() == Role::User,
        run.phase == Phase::Done || run.phase == Phase::AwaitingTool ==> run.last_role()
            == Role::Assistant,
{
}

/// A completion that asks for no tool ends the run: exactly one `done`
/// event is reported, nothing more is to be done, and whatever comes
/// afterwards changes nothing, reports nothing and asks for no completion.
pub proof fn lemma_no_directive_ends_run<T: Tool>(
    run: RunModel,
    registry: Registry<T>,
    text: Seq<char>,
    later: InputModel,
)
    requires
        run.wf(),
        run.phase == Phase::AwaitingCompletion,
        invocation_of(text).is_none(),
    ensures
        ({
            let (next, step) = run.on_completion(registry, text);
            &&& step.events == seq![EventModel { kind: EventKind::Done, content: Seq::empty() }]
            &&& step.action == ActionModel::Stop
            &&& next.phase == Phase::Done
            &&& next.calls == run.calls
            &&& next.history == run.history.push(
                MessageModel { role: Role::Assistant, content: text },
            )
            &&& next.step(registry, later) == next.idle()
        }),
{
}

/// A completion that asks for a tool that is not registered does not end
/// the run in failure: the observation says that the tool was not found, it
/// is reported and joins the history, and the next completion is asked for
/// if the budget allows one.
pub proof fn lemma_unknown_tool_is_observed<T: Tool>(
    run: RunModel,
    registry: Registry<T>,
    text: Seq<char>,
)
    requires
        run.wf(),
        run.phase == Phase::AwaitingCompletion,
        invocation_of(text).is_some(),
        registry.lookup_spec(invocation_of(text).unwrap().name).is_none(),
    ensures
        ({
            let invocation = invocation_of(text).unwrap();
            let (next, step) = run.on_completion(registry, text);
            &&& step.events == seq![
                EventModel { kind: EventKind::ToolStart, content: start_text(invocation) },
                EventModel { kind: EventKind::ToolEnd, content: not_found_text(invocation.name) },
            ]
            &&& next.history == run.history.push(
                MessageModel { role: Role::Assistant, content: text },
            ).push(
                MessageModel {
                    role: Role::User,
                    content: observation_text(not_found_text(invocation.name)),
                },
            )
            &&& step.action == if run.calls < run.limit {
                ActionModel::Complete
            } else {
                ActionModel::Stop
            }
            &&& next.phase != Phase::Failed
        }),
{
    let invocation = invocation_of(text).unwrap();
    let (next, step) = run.on_completion(registry, text);
}

/// Of two directives in one completion, the first alone is dispatched: with
/// no opening text before the first, the step is the one that the completion
/// with the first directive alone would bring, with the same events, the
/// same action and the same observation.
pub proof fn lemma_first_directive_is_dispatched<T: Tool>(
    run: RunModel,
    registry: Registry<T>,
    pre: Seq<char>,
    name: Seq<char>,
    body: Seq<char>,
    between: Seq<char>,
    second_name: Seq<char>,
    second_body: Seq<char>,
    post: Seq<char>,
)
    requires
        is_name(name),
        is_body(body),
        forall|k: int| !has_at(pre, k, open_tag()),
    ensures
        ({
            let both = run.on_completion(
                registry,
                pre + directive_text(name, body) + between + directive_text(
                    second_name,
                    second_body,
                ) + post,
            );
            let one = run.on_completion(registry, pre + directive_text(name, body));
            &&& both.1 == one.1
            &&& both.0.phase == one.0.phase
            &&& both.0.calls == one.0.calls
            &&& both.0.pending == one.0.pending
            &&& both.0.phase != Phase::AwaitingTool ==> both.0.history.last()
                == one.0.history.last()
            &&& run.phase == Phase::AwaitingCompletion ==> both.1.events[0] == (EventModel {
                kind: EventKind::ToolStart,
                content: start_text(InvocationModel { name, input: trimmed(body) }),
            })
        }),
{
    lemma_first_of_two_directives(pre, name, body, between, second_name, second_body, post);
    lemma_no_directive_before(pre, name, body, Seq::empty());
    lemma_directive_is_extracted(pre, name, body, Seq::empty());
}

/// A step asks for a completion exactly when it counts one more call.
pub proof fn lemma_step_counts<T: Tool>(run: RunModel, registry: Registry<T>, input: InputModel)
    requires
        run.wf(),
    ensures
        ({
            let (next, step) = run.step(registry, input);
            next.calls == run.calls + if step.action == ActionModel::Complete {
                1nat
            } else {
                0nat
            }
        }),
{
}

/// Whatever the inputs, a run never asks for more completions than its
/// limit: the completions asked for at its start and by all its steps
/// together are its count of calls, which stays within the limit.
pub proof fn lemma_calls_bounded<T: Tool>(
    run: RunModel,
    registry: Registry<T>,
    inputs: Seq<InputModel>,
)
    requires
        run.wf(),
    ensures
        run.after(registry, inputs).wf(),
        run.after(registry, inputs).limit == run.limit,
        run.after(registry, inputs).calls == run.calls + run.asked(registry, inputs),
        run.calls + run.asked(registry, inputs) <= run.limit,
    decreases inputs.len(),
{
    if inputs.len() > 0 {
        lemma_calls_bounded(run, registry, inputs.drop_last());
        let before = run.after(registry, inputs.drop_last());
        lemma_step_wf(before, registry, inputs.last());
        lemma_step_counts(before, registry, inputs.last());
    }
}

/// The models of the messages, after one more message.
proof fn lemma_messages_push(history: Seq<Message>, message: Message)
    ensures
        messages_view(history.push(message)) == messages_view(history).push(message@),
{
}

/// The models of the events, after one more event.
proof fn lemma_events_push(events: Seq<AgentEvent>, event: AgentEvent)
    ensures
        events_view(events.push(event)) == events_view(events).push(event@),
{
}

/// One conversation run: its history, its budget and where it stands.
pub struct Run {
    history: Vec<Message>,
    calls: usize,
    limit: usize,
    phase: Phase,
    pending: Option<ToolInvocation>,
}

impl View for Run {
    type V = RunModel;

    closed spec fn view(&self) -> RunModel {
        RunModel {
            history: messages_view(self.history@),
            calls: self.calls as nat,
            limit: self.limit as nat,
            phase: self.phase,
            pending: match self.pending {
                Some(invocation) => Some(invocation@),
                None => None,
            },
        }
    }
}

fn start_text_of(invocation: &ToolInvocation) -> (r: String)
    ensures
        r@ == start_text(invocation@),
{
    let mut r = invocation.name.clone();
    r.append(": ");
    r.append(invocation.input.as_str());
    r
}

fn not_found_text_of(name: &str) -> (r: String)
    ensures
        r@ == not_found_text(name@),
{
    let mut r = "Error: Tool '".to_owned();
    r.append(name);
    r.append("' not found");
    r
}

fn failure_text_of(message: &str) -> (r: String)
    ensures
        r@ == failure_text(message@),
{
    let mut r = "Error executing tool: ".to_owned();
    r.append(message);
    r
}

fn observation_text_of(observation: &str) -> (r: String)
    ensures
        r@ == observation_text(observation@),
{
    let mut r = "<observation>\n".to_owned();
    r.append(observation);
    r.append("\n</observation>");
    r
}

impl Run {
    #[verifier::type_invariant]
    spec fn well_formed(self) -> bool {
        self@.wf()
    }

    /// Starts a run on the system prompt and the user's message, with a
    /// budget of `limit` completions.
    pub fn start(prompt: String, message: String, limit: usize) -> (r: (Run, Step))
        ensures
            r.0@ == RunModel::begin(prompt@, message@, limit as nat).0,
            r.1@ == RunModel::begin(prompt@, message@, limit as nat).1,
    {
        let mut history: Vec<Message> = Vec::new();
        history.push(Message { role: Role::System, content: prompt });
        history.push(Message { role: Role::User, content: message });
        let ghost model = RunModel::begin(prompt@, message@, limit as nat);
        assert(messages_view(history@) =~= model.0.history);
        let events: Vec<AgentEvent> = Vec::new();
        assert(events_view(events@) =~= Seq::<EventModel>::empty());
        if limit == 0 {
            (
                Run { history, calls: 0, limit, phase: Phase::Exhausted, pending: None },
                Step { events, action: Action::Stop },
            )
        } else {
            (
                Run { history, calls: 1, limit, phase: Phase::AwaitingCompletion, pending: None },
                Step { events, action: Action::Complete },
            )
        }
    }

    /// The conversation so far: what a completion is asked for on.
    pub fn history(&self) -> (r: &Vec<Message>)
        ensures
            messages_view(r@) == self@.history,
            alternates(self@.history),
    {
        proof {
            use_type_invariant(self);
        }
        &self.history
    }

    /// Where the run stands.
    pub fn phase(&self) -> (r: Phase)
        ensures
            r == self@.phase,
            self@.wf(),
    {
        proof {
            use_type_invariant(self);
        }
        self.phase
    }

    /// The number of completions asked for so far. It never exceeds the limit.
    pub fn calls(&self) -> (r: usize)
        ensures
            r == self@.calls,
            r <= self@.limit,
    {
        proof {
            use_type_invariant(self);
        }
        self.calls
    }

    /// The number of completions that may be asked for.
    pub fn limit(&self) -> (r: usize)
        ensures
            r == self@.limit,
    {
        self.limit
    }

    /// Whether the run is over.
    pub fn is_over(&self) -> (r: bool)
        ensures
            r == (self@.phase == Phase::Done || self@.phase == Phase::Exhausted || self@.phase
                == Phase::Failed),
    {
        match self.phase {
            Phase::Done | Phase::Exhausted | Phase::Failed => true,
            _ => false,
        }
    }

    fn idle(self) -> (r: (Run, Step))
        ensures
            r.0@ == self@.idle().0,
            r.1@ == self@.idle().1,
    {
        let events: Vec<AgentEvent> = Vec::new();
        assert(events_view(events@) =~= Seq::<EventModel>::empty());
        (self, Step { events, action: Action::Stop })
    }

    /// Ends an iteration with a tool: reports the observation after the
    /// events `events`, appends it to `history`, and asks for the next
    /// completion if the budget allows one.
    fn observed(
        history: Vec<Message>,
        calls: usize,
        limit: usize,
        events: Vec<AgentEvent>,
        observation: String,
        Ghost(before): Ghost<RunModel>,
    ) -> (r: (Run, Step))
        requires
            before.wf(),
            before.phase == Phase::AwaitingTool,
            before.history == messages_view(history@),
            before.calls == calls,
            before.limit == limit,
        ensures
            r.0@ == before.observe(events_view(events@), observation@).0,
            r.1@ == before.observe(events_view(events@), observation@).1,
    {
        let mut history = history;
        let mut events = events;
        let content = observation_text_of(observation.as_str());
        proof {
            lemma_messages_push(history@, Message { role: Role::User, content });
            lemma_events_push(events@, AgentEvent { kind: EventKind::ToolEnd, content: observation });
        }
        history.push(Message { role: Role::User, content });
        events.push(AgentEvent { kind: EventKind::ToolEnd, content: observation });
        if calls < limit {
            (
                Run {
                    history,
                    calls: calls + 1,
                    limit,
                    phase: Phase::AwaitingCompletion,
                    pending: None,
                },
                Step { events, action: Action::Complete },
            )
        } else {
            (
                Run { history, calls, limit, phase: Phase::Exhausted, pending: None },
                Step { events, action: Action::Stop },
            )
        }
    }

    /// Takes the text of the completion that was asked for.
    pub fn on_completion<T: Tool>(self, registry: &Registry<T>, text: String) -> (r: (Run, Step))
        ensures
            r.0@ == self@.on_completion(*registry, text@).0,
            r.1@ == self@.on_completion(*registry, text@).1,
    {
        proof {
            use_type_invariant(&self);
        }
        if self.phase != Phase::AwaitingCompletion {
            return self.idle();
        }
        let ghost model = self@.on_completion(*registry, text@);
        let invocation = extract_tool_call(text.as_str());
        let Run { history, calls, limit, phase: _, pending: _ } = self;
        let mut history = history;
        proof {
            lemma_messages_push(history@, Message { role: Role::Assistant, content: text });
        }
        history.push(Message { role: Role::Assistant, content: text });
        let mut events: Vec<AgentEvent> = Vec::new();
        match invocation {
            None => {
                let done = AgentEvent { kind: EventKind::Done, content: String::new() };
                proof {
                    lemma_events_push(events@, done);
                }
                events.push(done);
                assert(events_view(events@) =~= model.1.events);
                (
                    Run { history, calls, limit, phase: Phase::Done, pending: None },
                    Step { events, action: Action::Stop },
                )
            },
            Some(invocation) => {
                let started = AgentEvent {
                    kind: EventKind::ToolStart,
                    content: start_text_of(&invocation),
                };
                proof {
                    lemma_events_push(events@, started);
                }
                events.push(started);
                let ghost replied = RunModel {
                    history: messages_view(history@),
                    calls: calls as nat,
                    limit: limit as nat,
                    phase: Phase::AwaitingTool,
                    pending: Some(invocation@),
                };
                assert(events_view(events@) =~= seq![
                    EventModel { kind: EventKind::ToolStart, content: start_text(invocation@) },
                ]);
                match registry.lookup(invocation.name.as_str()) {
                    None => {
                        let observation = not_found_text_of(invocation.name.as_str());
                        Run::observed(history, calls, limit, events, observation, Ghost(replied))
                    },
                    Some(tool) => match tool.plan(invocation.input.as_str()) {
                        Err(e) => {
                            let observation = failure_text_of(e.message.as_str());
                            Run::observed(
                                history,
                                calls,
                                limit,
                                events,
                                observation,
                                Ghost(replied),
                            )
                        },
                        Ok(request) => (
                            Run {
                                history,
                                calls,
                                limit,
                                phase: Phase::AwaitingTool,
                                pending: Some(invocation),
                            },
                            Step { events, action: Action::Perform(request) },
                        ),
                    },
                }
            },
        }
    }

    /// Takes the failure of the completion that was asked for.
    pub fn on_failure(self, message: String) -> (r: (Run, Step))
        ensures
            r.0@ == self@.on_failure(message@).0,
            r.1@ == self@.on_failure(message@).1,
    {
        proof {
            use_type_invariant(&self);
        }
        if self.phase != Phase::AwaitingCompletion {
            return self.idle();
        }
        let Run { history, calls, limit, phase: _, pending: _ } = self;
        let events: Vec<AgentEvent> = Vec::new();
        assert(events_view(events@) =~= Seq::<EventModel>::empty());
        (
            Run { history, calls, limit, phase: Phase::Failed, pending: None },
            Step { events, action: Action::Fail(message) },
        )
    }

    /// Takes the outcome of the tool's work that was asked for.
    pub fn on_response<T: Tool>(self, registry: &Registry<T>, response: &ToolResponse) -> (r: (
        Run,
        Step,
    ))
        ensures
            r.0@ == self@.on_response(*registry, response@).0,
            r.1@ == self@.on_response(*registry, response@).1,
    {
        proof {
            use_type_invariant(&self);
        }
        if self.phase != Phase::AwaitingTool {
            return self.idle();
        }
        let ghost before = self@;
        let Run { history, calls, limit, phase, pending } = self;
        let invocation = match pending {
            Some(invocation) => invocation,
            None => {
                return Run { history, calls, limit, phase, pending: None }.idle();
            },
        };
        let observation = match registry.lookup(invocation.name.as_str()) {
            None => not_found_text_of(invocation.name.as_str()),
            Some(tool) => match tool.finish(invocation.input.as_str(), response) {
                Ok(text) => text,
                Err(e) => failure_text_of(e.message.as_str()),
            },
        };
        let events: Vec<AgentEvent> = Vec::new();
        assert(events_view(events@) =~= Seq::<EventModel>::empty());
        Run::observed(history, calls, limit, events, observation, Ghost(before))
    }
}

} // verus!

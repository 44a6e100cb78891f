//! The execution loop as a state machine: it takes one event at a time and
//! says what is to be done about it. Whoever drives the loop waits for the
//! events and carries out the actions.

use vstd::prelude::*;
use crate::agent::{convert_event_to_output, normalized};
use crate::controller::{AgentController, ControlCommand, ControllerView, ExecutionState,
    ExecutionStateView};
use crate::engine::{EngineEvent, InputItem, Op, Submission};
use crate::error::{AgentError, AgentErrorView};
use crate::ident::hyphenated_text;
use crate::messages::{general_error_view, InputMessage, OutputData, OutputDataView,
    OutputMessage};
use crate::plan::{PlanMessage, UpdatePlanArgs};

verus! {

/// Where the loop stands between two events.
#[derive(Debug)]
pub enum LoopPhase {
    /// The loop waits for a command, an input or a tick.
    AwaitingEvent,
    /// An input has come while the session was paused; the loop holds it
    /// until the session is resumed or stopped.
    HoldingInput { input: InputMessage },
    /// A turn has begun and its `Start` is on the way to the consumer; the
    /// input is handed to the engine once `Start` was sent.
    StartingTurn { input: InputMessage },
    /// An input was handed to the engine; the loop fetches the engine's
    /// events until the turn ends.
    ProcessingTurn,
    /// The loop has ended.
    Exited,
}

/// What can happen to the loop.
#[derive(Debug)]
pub enum LoopEvent {
    /// A holder has sent a command.
    Control(ControlCommand),
    /// No holder is left that could send a command.
    ControlClosed,
    /// A caller has sent an input.
    Input(InputMessage),
    /// No caller is left that could send an input.
    InputClosed,
    /// Time has passed and nothing else has happened.
    Tick,
    /// The `Start` of the turn was sent to the consumer.
    StartSent,
    /// The engine has reported an event of the turn.
    Engine(EngineEvent),
    /// The engine's next event could not be fetched.
    EngineFailed { message: String },
    /// The engine did not take the submission.
    SubmitFailed { message: String },
    /// A report or a plan could not be sent to its consumer.
    SendFailed { message: String },
}

/// What the driver of the loop is to do.
#[derive(Debug)]
pub enum LoopAction {
    /// Answer the command that was just handled.
    Respond(Result<(), AgentError>),
    /// Send a report to the consumer of the output.
    Emit(OutputMessage),
    /// Send a snapshot of the plan to the consumer of plans.
    EmitPlan(PlanMessage),
    /// Hand a submission to the engine.
    Submit(Submission),
    /// Keep the input and offer it again when the loop takes one: it came
    /// while the loop could not take it.
    GiveBack(InputMessage),
}

/// What the driver of the loop is to wait for.
#[derive(Clone, Copy, Debug, PartialEq, Eq, Structural)]
pub enum Awaited {
    /// A command, an input, or a tick.
    Anything,
    /// A command, or a tick after which the flags are looked at again.
    Resume,
    /// The outcome of sending `Start`.
    Delivery,
    /// The engine's next event.
    Engine,
    /// Nothing: the loop has ended.
    Nothing,
}

/// What a [`LoopAction`] stands for.
pub enum ActionView {
    /// The answer to a command, which is a success.
    Respond,
    /// A report of the turn `turn_id`.
    Emit { turn_id: u64, data: OutputDataView },
    /// A snapshot of the plan that the engine states in `args`.
    EmitPlan { args: UpdatePlanArgs },
    /// A submission of `items`, under the text of some identifier.
    Submit { items: Seq<InputItem> },
    /// The input, given back.
    GiveBack { input: InputMessage },
}

impl LoopAction {
    /// Whether the action is the one that `view` stands for.
    pub open spec fn shows(self, view: ActionView) -> bool {
        match view {
            ActionView::Respond => self matches LoopAction::Respond(r) && r is Ok,
            ActionView::Emit { turn_id, data } => self matches LoopAction::Emit(m) && m.turn_id
                == turn_id && m.data@ == data,
            ActionView::EmitPlan { args } => self matches LoopAction::EmitPlan(p) && p.reflects(
                args,
            ),
            ActionView::Submit { items } => self matches LoopAction::Submit(s) && s.op
                matches Op::UserInput { items: given } && given@ == items && is_identifier(s.id@),
            ActionView::GiveBack { input } => self matches LoopAction::GiveBack(m) && m == input,
        }
    }
}

/// Whether `text` is the text of an identifier.
pub open spec fn is_identifier(text: Seq<char>) -> bool {
    exists|bits: u128| text == #[trigger] hyphenated_text(bits)
}

/// Whether the actions are, one by one, those that `views` stand for.
pub open spec fn actions_show(actions: Seq<LoopAction>, views: Seq<ActionView>) -> bool {
    &&& actions.len() == views.len()
    &&& forall|i: int| 0 <= i < actions.len() ==> (#[trigger] actions[i]).shows(views[i])
}

/// What is handed to the engine for an input: its text, then one item for
/// each image, in order.
pub open spec fn submission_items(input: InputMessage) -> Seq<InputItem> {
    Seq::new(
        input.images@.len() + 1,
        |i: int|
            if i == 0 {
                InputItem::Text { text: input.message }
            } else {
                InputItem::Image { image_url: input.images@[i - 1].data }
            },
    )
}

/// The text of the error for a submission that the engine did not take.
pub open spec fn submit_failure_text(message: Seq<char>) -> Seq<char> {
    AgentErrorView::Codex(message).text()
}

/// The text of the error for a report that could not be sent.
pub open spec fn send_failure_text(message: Seq<char>) -> Seq<char> {
    (AgentErrorView::ChannelSend { message: "Failed to send message: "@ + message }).text()
}

/// The loop as a whole: the shared state and the phase.
pub struct LoopView {
    pub controller: ControllerView,
    pub phase: LoopPhase,
}

/// What an event leads to: the loop after it, and what is to be done.
pub struct Outcome {
    pub next: LoopView,
    pub actions: Seq<ActionView>,
}

impl LoopView {
    /// Nothing happens.
    pub open spec fn idle(self) -> Outcome {
        Outcome { next: self, actions: Seq::empty() }
    }

    /// The loop ends: a last `Completed` is reported under the current count
    /// of turns. A session that was stopped stays as it is, and a command to
    /// it is still answered, without effect. Any other session goes back to
    /// idle and takes no command any more.
    pub open spec fn finish(self) -> Outcome {
        Outcome {
            next: LoopView {
                controller: if self.controller.should_stop {
                    self.controller
                } else {
                    ControllerView {
                        state: ExecutionStateView::Idle,
                        active: false,
                        ..self.controller
                    }
                },
                phase: LoopPhase::Exited,
            },
            actions: seq![
                ActionView::Emit {
                    turn_id: self.controller.turn_count,
                    data: OutputDataView::Completed,
                },
            ],
        }
    }

    /// A turn begins for `input`: the input is counted and `Start` is
    /// reported under the new count. The input is kept until `Start` was
    /// sent.
    pub open spec fn begin_turn(self, input: InputMessage) -> Outcome {
        Outcome {
            next: LoopView {
                controller: ControllerView {
                    turn_count: self.controller.next_turn(),
                    ..self.controller
                },
                phase: LoopPhase::StartingTurn { input },
            },
            actions: seq![
                ActionView::Emit {
                    turn_id: self.controller.next_turn(),
                    data: OutputDataView::Start,
                },
            ],
        }
    }

    /// `Start` was sent: the input is handed to the engine.
    pub open spec fn submit(self, input: InputMessage) -> Outcome {
        Outcome {
            next: LoopView { phase: LoopPhase::ProcessingTurn, ..self },
            actions: seq![ActionView::Submit { items: submission_items(input) }],
        }
    }

    /// An input that the loop cannot take now is given back, and nothing
    /// changes.
    pub open spec fn give_back(self, input: InputMessage) -> Outcome {
        Outcome { next: self, actions: seq![ActionView::GiveBack { input }] }
    }

    /// What the driver is to wait for.
    pub open spec fn awaited(self) -> Awaited {
        match self.phase {
            LoopPhase::AwaitingEvent => Awaited::Anything,
            LoopPhase::HoldingInput { .. } => Awaited::Resume,
            LoopPhase::StartingTurn { .. } => Awaited::Delivery,
            LoopPhase::ProcessingTurn => if self.controller.must_wait() {
                Awaited::Resume
            } else {
                Awaited::Engine
            },
            LoopPhase::Exited => Awaited::Nothing,
        }
    }

    /// The checkpoint before an input is handed on: a stopped loop ends, a
    /// paused one holds the input, any other begins the turn.
    pub open spec fn checkpoint(self, input: InputMessage) -> Outcome {
        if self.controller.should_stop {
            self.finish()
        } else if self.controller.is_paused {
            Outcome {
                next: LoopView { phase: LoopPhase::HoldingInput { input }, ..self },
                actions: Seq::empty(),
            }
        } else {
            self.begin_turn(input)
        }
    }

    /// A command is applied and answered. A stop ends the loop. A loop that
    /// holds an input begins the turn as soon as the session is not paused.
    pub open spec fn command(self, command: ControlCommand) -> Outcome {
        let applied = LoopView { controller: self.controller.apply(command), ..self };
        let rest = if applied.controller.should_stop {
            applied.finish()
        } else {
            match self.phase {
                LoopPhase::HoldingInput { input } => applied.checkpoint(input),
                _ => applied.idle(),
            }
        };
        Outcome { next: rest.next, actions: seq![ActionView::Respond] + rest.actions }
    }

    /// An event of the engine in a turn: what it stands for is reported, a
    /// change of the plan goes to the consumer of plans, and the end of the
    /// task, like a turn broken off, ends the turn.
    pub open spec fn engine_event(self, event: EngineEvent) -> Outcome {
        let report = match normalized(event) {
            Some(data) => seq![ActionView::Emit { turn_id: self.controller.turn_count, data }],
            None => Seq::empty(),
        };
        let plan = match event {
            EngineEvent::PlanUpdate { args } => seq![ActionView::EmitPlan { args }],
            _ => Seq::empty(),
        };
        Outcome {
            next: LoopView {
                phase: if event.is_terminal() {
                    LoopPhase::AwaitingEvent
                } else {
                    LoopPhase::ProcessingTurn
                },
                ..self
            },
            actions: report + plan,
        }
    }

    /// The turn ends with an error that is reported and recorded as the
    /// state of the session.
    pub open spec fn turn_failure(self, text: Seq<char>) -> Outcome {
        Outcome {
            next: LoopView {
                controller: ControllerView {
                    state: ExecutionStateView::Error(text),
                    ..self.controller
                },
                phase: LoopPhase::AwaitingEvent,
            },
            actions: seq![
                ActionView::Emit {
                    turn_id: self.controller.turn_count,
                    data: general_error_view(text),
                },
            ],
        }
    }

    /// What `event` leads to.
    ///
    /// A loop that has ended takes nothing. A command is handled in every
    /// phase, and the end of the commands ends the loop in every phase. An
    /// input is taken only by a loop that awaits one, and the end of the
    /// inputs ends only such a loop; a loop that is busy gives an input
    /// back. The input of a turn is handed to the engine only once `Start`
    /// was sent; where `Start` could not be sent, the turn fails without a
    /// submission. The events of the engine count only within a turn, and
    /// every failure of a turn is reported and recorded. A tick lets a loop
    /// that holds an input look at the flags again.
    pub open spec fn step(self, event: LoopEvent) -> Outcome {
        match self.phase {
            LoopPhase::Exited => self.idle(),
            LoopPhase::AwaitingEvent => match event {
                LoopEvent::Control(command) => self.command(command),
                LoopEvent::ControlClosed => self.finish(),
                LoopEvent::Input(input) => self.checkpoint(input),
                LoopEvent::InputClosed => self.finish(),
                _ => self.idle(),
            },
            LoopPhase::HoldingInput { input } => match event {
                LoopEvent::Control(command) => self.command(command),
                LoopEvent::ControlClosed => self.finish(),
                LoopEvent::Tick => self.checkpoint(input),
                LoopEvent::Input(other) => self.give_back(other),
                _ => self.idle(),
            },
            LoopPhase::StartingTurn { input } => match event {
                LoopEvent::Control(command) => self.command(command),
                LoopEvent::ControlClosed => self.finish(),
                LoopEvent::StartSent => self.submit(input),
                LoopEvent::SendFailed { message } => self.turn_failure(
                    send_failure_text(message@),
                ),
                LoopEvent::Input(other) => self.give_back(other),
                _ => self.idle(),
            },
            LoopPhase::ProcessingTurn => match event {
                LoopEvent::Control(command) => self.command(command),
                LoopEvent::ControlClosed => self.finish(),
                LoopEvent::Engine(event) => self.engine_event(event),
                LoopEvent::EngineFailed { message } => self.turn_failure(message@),
                LoopEvent::Input(other) => self.give_back(other),
                LoopEvent::SubmitFailed { message } => self.turn_failure(
                    submit_failure_text(message@),
                ),
                LoopEvent::SendFailed { message } => self.turn_failure(
                    send_failure_text(message@),
                ),
                _ => self.idle(),
            },
        }
    }

    /// What a sequence of events leads to, one after the other: the loop
    /// after the last, and all that is to be done, in order.
    pub open spec fn run(self, events: Seq<LoopEvent>) -> Outcome
        decreases events.len(),
    {
        if events.len() == 0 {
            self.idle()
        } else {
            let before = self.run(events.drop_last());
            let last = before.next.step(events.last());
            Outcome { next: last.next, actions: before.actions + last.actions }
        }
    }
}

/// The loop `view` with the input `held`, if there is one, as the input that
/// it holds.
pub open spec fn holding(view: LoopView, held: Option<InputMessage>) -> LoopView {
    match held {
        Some(input) => LoopView { phase: LoopPhase::HoldingInput { input }, ..view },
        None => view,
    }
}

/// The state that the loop owns: the shared state of the session and the
/// phase of the loop.
#[derive(Debug)]
pub struct ExecutionContext {
    controller: AgentController,
    phase: LoopPhase,
}

impl View for ExecutionContext {
    type V = LoopView;

    closed spec fn view(&self) -> LoopView {
        LoopView { controller: self.controller@, phase: self.phase }
    }
}

impl ExecutionContext {
    /// A loop around `controller` that awaits its first event.
    pub fn new(controller: AgentController) -> (r: ExecutionContext)
        ensures
            r@ == (LoopView { controller: controller@, phase: LoopPhase::AwaitingEvent }),
    {
        ExecutionContext { controller, phase: LoopPhase::AwaitingEvent }
    }

    /// The shared state of the session.
    pub fn controller(&self) -> (r: &AgentController)
        ensures
            r@ == self@.controller,
    {
        &self.controller
    }

    /// The phase of the loop.
    pub fn phase(&self) -> (r: &LoopPhase)
        ensures
            *r == self@.phase,
    {
        &self.phase
    }

    /// Whether the loop has ended.
    pub fn has_exited(&self) -> (r: bool)
        ensures
            r == (self@.phase is Exited),
    {
        matches!(self.phase, LoopPhase::Exited)
    }

    /// Whether the loop takes an input now.
    pub fn accepts_input(&self) -> (r: bool)
        ensures
            r == (self@.phase is AwaitingEvent),
    {
        matches!(self.phase, LoopPhase::AwaitingEvent)
    }

    /// What the driver is to wait for: anything where the loop awaits an
    /// event; a command or a tick where an input is held, and within a turn
    /// while the session is paused; the outcome of sending `Start` where a
    /// turn has just begun; the engine's next event within a turn; nothing
    /// where the loop has ended.
    pub fn awaits(&self) -> (r: Awaited)
        ensures
            r == self@.awaited(),
    {
        match &self.phase {
            LoopPhase::AwaitingEvent => Awaited::Anything,
            LoopPhase::HoldingInput { .. } => Awaited::Resume,
            LoopPhase::StartingTurn { .. } => Awaited::Delivery,
            LoopPhase::ProcessingTurn => {
                if self.controller.wait_if_paused() {
                    Awaited::Resume
                } else {
                    Awaited::Engine
                }
            },
            LoopPhase::Exited => Awaited::Nothing,
        }
    }

    /// Answers a command that did not reach the loop. Where the loop has
    /// ended, the session answers for itself: after a stop every command
    /// succeeds, a stop leaving the session stopped and the others changing
    /// nothing, and a session that ended without a stop says that it is not
    /// active. Where the loop has not ended, the command could not be handed
    /// to it, and nothing changes.
    pub fn late_command(&mut self, command: ControlCommand) -> (r: Result<(), AgentError>)
        ensures
            final(self)@.phase == old(self)@.phase,
            old(self)@.phase is Exited ==> final(self)@.controller == old(self)@.controller.request(
                command,
            ) && match r {
                Ok(_) => old(self)@.controller.answer() is Ok,
                Err(e) => old(self)@.controller.answer() == Err::<(), AgentErrorView>(e@),
            },
            !(old(self)@.phase is Exited) ==> final(self)@ == old(self)@ && (r matches Err(e) && e@
                == command.send_failure_view()),
    {
        if self.has_exited() {
            match command {
                ControlCommand::Pause => self.controller.pause(),
                ControlCommand::Resume => self.controller.resume(),
                ControlCommand::Stop => self.controller.stop(),
            }
        } else {
            Err(command.send_failure())
        }
    }

    /// Gives the shared state back when the loop is done with it.
    pub fn into_controller(self) -> (r: AgentController)
        ensures
            r@ == self@.controller,
    {
        self.controller
    }

    fn finish(&mut self, actions: &mut Vec<LoopAction>)
        ensures
            final(self)@ == old(self)@.finish().next,
            final(actions)@.len() == old(actions)@.len() + 1,
            final(actions)@.subrange(0, old(actions)@.len() as int) == old(actions)@,
            final(actions)@[old(actions)@.len() as int].shows(old(self)@.finish().actions[0]),
    {
        let message = OutputMessage::new(self.controller.turn_count(), OutputData::Completed);
        actions.push(LoopAction::Emit(message));
        if !self.controller.should_stop() {
            self.controller.set_execution_state(ExecutionState::Idle);
            self.controller.close();
        }
        self.phase = LoopPhase::Exited;
        proof {
            assert(final(actions)@.subrange(0, old(actions)@.len() as int) =~= old(actions)@);
        }
    }

    fn checkpoint(&mut self, input: InputMessage, actions: &mut Vec<LoopAction>)
        ensures
            final(self)@ == old(self)@.checkpoint(input).next,
            final(actions)@.len() == old(actions)@.len() + old(self)@.checkpoint(input).actions.len(),
            final(actions)@.subrange(0, old(actions)@.len() as int) == old(actions)@,
            forall|i: int|
                0 <= i < old(self)@.checkpoint(input).actions.len() ==> (#[trigger] final(actions)@[old(actions)@.len() + i]).shows(
                    old(self)@.checkpoint(input).actions[i],
                ),
    {
        if self.controller.should_stop() {
            self.finish(actions);
        } else if self.controller.is_paused() {
            self.phase = LoopPhase::HoldingInput { input };
            proof {
                assert(actions@.subrange(0, old(actions)@.len() as int) =~= old(actions)@);
            }
        } else {
            let ghost before = actions@;
            let mut made = process_input_message(self, input);
            let ghost fresh = made@;
            actions.append(&mut made);
            proof {
                assert(actions@ =~= before + fresh);
                assert(actions@.subrange(0, before.len() as int) =~= before);
                assert forall|i: int| 0 <= i < fresh.len() implies (#[trigger] actions@[before.len()
                    + i]).shows(old(self)@.checkpoint(input).actions[i]) by {
                    assert(actions@[before.len() + i] == fresh[i]);
                }
            }
        }
    }

    /// Takes one event and says what is to be done about it.
    pub fn step(&mut self, event: LoopEvent) -> (r: Vec<LoopAction>)
        ensures
            final(self)@ == old(self)@.step(event).next,
            actions_show(r@, old(self)@.step(event).actions),
    {
        let mut actions: Vec<LoopAction> = Vec::new();
        let mut phase = LoopPhase::Exited;
        core::mem::swap(&mut self.phase, &mut phase);
        let ghost start = LoopView { controller: self.controller@, phase };
        assert(start == old(self)@);
        match phase {
            LoopPhase::Exited => {},
            LoopPhase::AwaitingEvent => {
                self.phase = LoopPhase::AwaitingEvent;
                match event {
                    LoopEvent::Control(command) => {
                        self.command(command, None, &mut actions);
                    },
                    LoopEvent::ControlClosed => {
                        self.finish(&mut actions);
                    },
                    LoopEvent::Input(input) => {
                        self.checkpoint(input, &mut actions);
                    },
                    LoopEvent::InputClosed => {
                        self.finish(&mut actions);
                    },
                    _ => {},
                }
            },
            LoopPhase::HoldingInput { input } => {
                match event {
                    LoopEvent::Control(command) => {
                        self.phase = LoopPhase::AwaitingEvent;
                        self.command(command, Some(input), &mut actions);
                    },
                    LoopEvent::ControlClosed => {
                        self.phase = LoopPhase::HoldingInput { input };
                        self.finish(&mut actions);
                    },
                    LoopEvent::Tick => {
                        self.checkpoint(input, &mut actions);
                    },
                    LoopEvent::Input(other) => {
                        self.phase = LoopPhase::HoldingInput { input };
                        actions.push(LoopAction::GiveBack(other));
                    },
                    _ => {
                        self.phase = LoopPhase::HoldingInput { input };
                    },
                }
            },
            LoopPhase::StartingTurn { input } => {
                match event {
                    LoopEvent::Control(command) => {
                        self.phase = LoopPhase::StartingTurn { input };
                        self.command(command, None, &mut actions);
                    },
                    LoopEvent::ControlClosed => {
                        self.phase = LoopPhase::StartingTurn { input };
                        self.finish(&mut actions);
                    },
                    LoopEvent::StartSent => {
                        self.submit(input, &mut actions);
                    },
                    LoopEvent::SendFailed { message } => {
                        self.phase = LoopPhase::StartingTurn { input };
                        let error = AgentError::ChannelSend {
                            message: crate::text::join("Failed to send message: ", message.as_str()),
                        };
                        self.turn_failure(error.to_text(), &mut actions);
                    },
                    LoopEvent::Input(other) => {
                        self.phase = LoopPhase::StartingTurn { input };
                        actions.push(LoopAction::GiveBack(other));
                    },
                    _ => {
                        self.phase = LoopPhase::StartingTurn { input };
                    },
                }
            },
            LoopPhase::ProcessingTurn => {
                self.phase = LoopPhase::ProcessingTurn;
                match event {
                    LoopEvent::Control(command) => {
                        self.command(command, None, &mut actions);
                    },
                    LoopEvent::ControlClosed => {
                        self.finish(&mut actions);
                    },
                    LoopEvent::Engine(event) => {
                        self.engine_event(event, &mut actions);
                    },
                    LoopEvent::EngineFailed { message } => {
                        self.turn_failure(message, &mut actions);
                    },
                    LoopEvent::SubmitFailed { message } => {
                        let error = AgentError::Codex(message);
                        self.turn_failure(error.to_text(), &mut actions);
                    },
                    LoopEvent::SendFailed { message } => {
                        let error = AgentError::ChannelSend {
                            message: crate::text::join("Failed to send message: ", message.as_str()),
                        };
                        self.turn_failure(error.to_text(), &mut actions);
                    },
                    LoopEvent::Input(other) => {
                        actions.push(LoopAction::GiveBack(other));
                    },
                    _ => {},
                }
            },
        }
        actions
    }

    fn command(
        &mut self,
        command: ControlCommand,
        held: Option<InputMessage>,
        actions: &mut Vec<LoopAction>,
    )
        requires
            old(actions)@.len() == 0,
            !(old(self)@.phase is HoldingInput),
        ensures
            final(self)@ == holding(old(self)@, held).command(command).next,
            actions_show(final(actions)@, holding(old(self)@, held).command(command).actions),
    {
        let ghost start = holding(self@, held);
        let answer = self.controller.handle_control_command(command);
        actions.push(LoopAction::Respond(answer));
        let ghost applied = LoopView { controller: self.controller@, phase: start.phase };
        let ghost views = start.command(command).actions;
        let ghost first = actions@;
        assert(first.len() == 1 && first[0].shows(ActionView::Respond));
        if self.controller.should_stop() {
            self.finish(actions);
            proof {
                assert(applied.finish().next == self@);
                assert(views =~= seq![ActionView::Respond] + applied.finish().actions);
                assert(actions@.subrange(0, 1)[0] == first[0]);
                assert forall|i: int| 0 <= i < actions@.len() implies (#[trigger] actions@[i]).shows(
                    views[i],
                ) by {
                    if i == 0 {
                        assert(actions@[0] == first[0]);
                    }
                }
            }
        } else {
            match held {
                Some(input) => {
                    let ghost mid = self@;
                    self.checkpoint(input, actions);
                    proof {
                        assert(mid.checkpoint(input) == applied.checkpoint(input));
                        assert(views =~= seq![ActionView::Respond] + applied.checkpoint(
                            input,
                        ).actions);
                        assert(actions@.subrange(0, 1)[0] == first[0]);
                        assert forall|i: int| 0 <= i < actions@.len() implies (
                        #[trigger] actions@[i]).shows(views[i]) by {
                            if i == 0 {
                                assert(actions@[0] == first[0]);
                            } else {
                                assert(actions@[1 + (i - 1)].shows(
                                    applied.checkpoint(input).actions[i - 1],
                                ));
                            }
                        }
                    }
                },
                None => {
                    proof {
                        assert(views =~= seq![ActionView::Respond]);
                    }
                },
            }
        }
    }

    fn engine_event(&mut self, event: EngineEvent, actions: &mut Vec<LoopAction>)
        requires
            old(actions)@.len() == 0,
        ensures
            final(self)@ == old(self)@.engine_event(event).next,
            actions_show(final(actions)@, old(self)@.engine_event(event).actions),
    {
        let turn_id = self.controller.turn_count();
        let terminal = event.ends_turn();
        match convert_event_to_output(&event) {
            Some(data) => {
                actions.push(LoopAction::Emit(OutputMessage::new(turn_id, data)));
            },
            None => {},
        }
        match event {
            EngineEvent::PlanUpdate { args } => {
                actions.push(LoopAction::EmitPlan(PlanMessage::from_update_plan_args(args)));
            },
            _ => {},
        }
        self.phase = if terminal {
            LoopPhase::AwaitingEvent
        } else {
            LoopPhase::ProcessingTurn
        };
    }

    fn turn_failure(&mut self, text: String, actions: &mut Vec<LoopAction>)
        requires
            old(actions)@.len() == 0,
        ensures
            final(self)@ == old(self)@.turn_failure(text@).next,
            actions_show(final(actions)@, old(self)@.turn_failure(text@).actions),
    {
        let report = OutputMessage::new(
            self.controller.turn_count(),
            OutputData::general_error(text.as_str()),
        );
        actions.push(LoopAction::Emit(report));
        self.controller.set_error(text.as_str());
        self.phase = LoopPhase::AwaitingEvent;
    }

    fn submit(&mut self, input: InputMessage, actions: &mut Vec<LoopAction>)
        requires
            old(actions)@.len() == 0,
        ensures
            final(self)@ == (LoopView { phase: LoopPhase::StartingTurn { input }, ..old(self)@ }).submit(
                input,
            ).next,
            actions_show(
                final(actions)@,
                (LoopView { phase: LoopPhase::StartingTurn { input }, ..old(self)@ }).submit(
                    input,
                ).actions,
            ),
    {
        let mut items: Vec<InputItem> = Vec::new();
        let mut i: usize = 0;
        let ghost wanted = submission_items(input);
        while i < input.images.len()
            invariant
                i <= input.images@.len(),
                items@.len() == i,
                wanted == submission_items(input),
                forall|k: int| 0 <= k < i ==> items@[k] == wanted[k + 1],
            decreases input.images@.len() - i,
        {
            items.push(InputItem::Image { image_url: input.images[i].data.clone() });
            i = i + 1;
        }
        items.insert(0, InputItem::Text { text: input.message });
        proof {
            assert(items@ =~= wanted);
        }
        let bits = crate::ident::fresh();
        let submission = Submission {
            id: crate::ident::hyphenated(bits),
            op: Op::UserInput { items },
        };
        assert(is_identifier(submission.id@));
        actions.push(LoopAction::Submit(submission));
        self.phase = LoopPhase::ProcessingTurn;
    }
}

/// Begins the turn for `input`: counts the input and reports `Start` under
/// the new count. The loop keeps the input and hands its text and images to
/// the engine, as one submission with a new identifier, once `Start` was
/// sent; where `Start` cannot be sent, the turn fails and the engine is not
/// called.
pub fn process_input_message(context: &mut ExecutionContext, input: InputMessage) -> (r: Vec<
    LoopAction,
>)
    ensures
        final(context)@ == old(context)@.begin_turn(input).next,
        actions_show(r@, old(context)@.begin_turn(input).actions),
{
    context.controller.increment_turn_count();
    let turn_id = context.controller.turn_count();
    let mut actions: Vec<LoopAction> = Vec::new();
    actions.push(LoopAction::Emit(OutputMessage::new(turn_id, OutputData::Start)));
    context.phase = LoopPhase::StartingTurn { input };
    actions
}

/// Runs the loop over `events`, one after the other, and gives all that is
/// to be done, in order.
pub fn execution_loop(context: &mut ExecutionContext, events: Vec<LoopEvent>) -> (r: Vec<
    LoopAction,
>)
    ensures
        final(context)@ == old(context)@.run(events@).next,
        actions_show(r@, old(context)@.run(events@).actions),
{
    let mut actions: Vec<LoopAction> = Vec::new();
    let ghost all = events@;
    let ghost start = context@;
    assert(start.run(all.take(0)) == start.idle());
    for event in it: events
        invariant
            it.seq() == all,
            context@ == start.run(all.take(it.index() as int)).next,
            actions_show(actions@, start.run(all.take(it.index() as int)).actions),
    {
        let ghost n = it.index() as int;
        let ghost before = context@;
        let ghost had = actions@;
        let mut made = context.step(event);
        let ghost fresh = made@;
        actions.append(&mut made);
        proof {
            let longer = all.take(n + 1);
            assert(longer.drop_last() =~= all.take(n));
            assert(longer.last() == event);
            let views = start.run(longer).actions;
            assert(views == start.run(all.take(n)).actions + before.step(event).actions);
            assert(actions@ =~= had + fresh);
            assert forall|i: int| 0 <= i < actions@.len() implies (#[trigger] actions@[i]).shows(
                views[i],
            ) by {
                if i < had.len() {
                    assert(actions@[i] == had[i]);
                } else {
                    assert(actions@[i] == fresh[i - had.len()]);
                }
            }
        }
    }
    proof {
        assert(all.take(all.len() as int) =~= all);
    }
    actions
}

/// Running one sequence of events after another is running the two as one.
pub proof fn lemma_run_append(view: LoopView, first: Seq<LoopEvent>, second: Seq<LoopEvent>)
    ensures
        view.run(first + second).next == view.run(first).next.run(second).next,
        view.run(first + second).actions == view.run(first).actions + view.run(first).next.run(
            second,
        ).actions,
    decreases second.len(),
{
    if second.len() == 0 {
        assert(first + second =~= first);
        assert(view.run(first).actions + Seq::<ActionView>::empty() =~= view.run(first).actions);
    } else {
        lemma_run_append(view, first, second.drop_last());
        assert((first + second).drop_last() =~= first + second.drop_last());
        assert((first + second).last() == second.last());
        let a = view.run(first).actions;
        let b = view.run(first).next.run(second.drop_last()).actions;
        let c = view.run(first).next.run(second.drop_last()).next.step(second.last()).actions;
        assert((a + b) + c =~= a + (b + c));
    }
}

/// Running one event is taking one step.
pub proof fn lemma_run_one(view: LoopView, event: LoopEvent)
    ensures
        view.run(seq![event]).next == view.step(event).next,
        view.run(seq![event]).actions == view.step(event).actions,
{
    let one = seq![event];
    assert(one.drop_last() =~= Seq::<LoopEvent>::empty());
    assert(view.run(one.drop_last()) == view.idle());
    assert(one.last() == event);
    assert(Seq::<ActionView>::empty() + view.step(event).actions =~= view.step(event).actions);
}

/// A loop that has ended stays as it is and asks for nothing, whatever
/// happens.
pub proof fn lemma_exited_is_final(view: LoopView, events: Seq<LoopEvent>)
    requires
        view.phase is Exited,
    ensures
        view.run(events).next == view,
        view.run(events).actions == Seq::<ActionView>::empty(),
    decreases events.len(),
{
    if events.len() > 0 {
        lemma_exited_is_final(view, events.drop_last());
        assert(Seq::<ActionView>::empty() + Seq::<ActionView>::empty() =~= Seq::<
            ActionView,
        >::empty());
    }
}

/// When the last sender of inputs is gone while the loop awaits an event,
/// the loop ends: it reports one last `Completed` under the count of turns.
/// A session that was not stopped is idle afterwards and takes no command
/// any more.
pub proof fn lemma_closed_input_ends_loop(view: LoopView)
    requires
        view.phase is AwaitingEvent,
    ensures
        view.step(LoopEvent::InputClosed).next.phase is Exited,
        view.step(LoopEvent::InputClosed).actions == seq![
            ActionView::Emit {
                turn_id: view.controller.turn_count,
                data: OutputDataView::Completed,
            },
        ],
        view.step(LoopEvent::InputClosed).next.controller.turn_count == view.controller.turn_count,
        !view.controller.should_stop ==> view.step(LoopEvent::InputClosed).next.controller.state
            == ExecutionStateView::Idle && !view.step(
            LoopEvent::InputClosed,
        ).next.controller.active,
        view.controller.should_stop ==> view.step(LoopEvent::InputClosed).next.controller
            == view.controller,
{
}

/// Whether the loop is paused with no turn under way.
pub open spec fn paused_between_turns(view: LoopView) -> bool {
    &&& view.controller.is_paused
    &&& !view.controller.should_stop
    &&& (view.phase is AwaitingEvent || view.phase is HoldingInput)
}

/// Whether no action hands anything to the engine.
pub open spec fn nothing_submitted(actions: Seq<ActionView>) -> bool {
    forall|i: int| 0 <= i < actions.len() ==> !(#[trigger] actions[i] is Submit)
}

/// An input that comes while the session is paused is held and not handed
/// to the engine.
pub proof fn lemma_paused_input_is_held(view: LoopView, input: InputMessage)
    requires
        view.phase is AwaitingEvent,
        view.controller.is_paused,
        !view.controller.should_stop,
    ensures
        view.step(LoopEvent::Input(input)).next == (LoopView {
            phase: LoopPhase::HoldingInput { input },
            ..view
        }),
        view.step(LoopEvent::Input(input)).actions == Seq::<ActionView>::empty(),
{
}

/// While the session is paused, nothing is handed to the engine before a
/// resume: whatever else happens, no submission is made and no input is
/// counted, and the loop either stays paused between turns or ends.
pub proof fn lemma_nothing_submitted_before_resume(view: LoopView, events: Seq<LoopEvent>)
    requires
        paused_between_turns(view),
        forall|i: int|
            0 <= i < events.len() ==> #[trigger] events[i] != LoopEvent::Control(
                ControlCommand::Resume,
            ),
    ensures
        nothing_submitted(view.run(events).actions),
        view.run(events).next.controller.turn_count == view.controller.turn_count,
        paused_between_turns(view.run(events).next) || view.run(events).next.phase is Exited,
    decreases events.len(),
{
    if events.len() > 0 {
        let front = events.drop_last();
        assert forall|i: int| 0 <= i < front.len() implies #[trigger] front[i]
            != LoopEvent::Control(ControlCommand::Resume) by {
            assert(front[i] == events[i]);
        }
        lemma_nothing_submitted_before_resume(view, front);
        let before = view.run(front);
        let last = events.last();
        assert(last == events[events.len() - 1]);
        assert(last != LoopEvent::Control(ControlCommand::Resume));
        let after = before.next.step(last);
        assert(nothing_submitted(after.actions));
        assert forall|i: int| 0 <= i < view.run(events).actions.len() implies !(
        #[trigger] view.run(events).actions[i] is Submit) by {
            if i < before.actions.len() {
                assert(view.run(events).actions[i] == before.actions[i]);
            } else {
                assert(view.run(events).actions[i] == after.actions[i - before.actions.len()]);
            }
        }
    }
}

/// A resume takes up the held input: the command is answered, the input is
/// counted and `Start` is reported; once `Start` was sent, the input is
/// handed to the engine.
pub proof fn lemma_resume_forwards_held_input(view: LoopView, input: InputMessage)
    requires
        view.phase == (LoopPhase::HoldingInput { input }),
        !view.controller.should_stop,
    ensures
        view.step(LoopEvent::Control(ControlCommand::Resume)).actions == seq![
            ActionView::Respond,
            ActionView::Emit {
                turn_id: view.controller.next_turn(),
                data: OutputDataView::Start,
            },
        ],
        view.step(LoopEvent::Control(ControlCommand::Resume)).next.phase == (
        LoopPhase::StartingTurn { input }),
        view.step(LoopEvent::Control(ControlCommand::Resume)).next.controller.turn_count
            == view.controller.next_turn(),
        !view.step(LoopEvent::Control(ControlCommand::Resume)).next.controller.is_paused,
        view.step(LoopEvent::Control(ControlCommand::Resume)).next.step(
            LoopEvent::StartSent,
        ).actions == seq![ActionView::Submit { items: submission_items(input) }],
        view.step(LoopEvent::Control(ControlCommand::Resume)).next.step(
            LoopEvent::StartSent,
        ).next.phase is ProcessingTurn,
{
    let o = view.step(LoopEvent::Control(ControlCommand::Resume));
    assert(o.actions =~= seq![
        ActionView::Respond,
        ActionView::Emit { turn_id: view.controller.next_turn(), data: OutputDataView::Start },
    ]);
}

/// The input of a turn waits for `Start`: a loop that is ready answers an
/// input with `Start` alone and keeps the input. Where `Start` was sent, the
/// input is handed to the engine. Where it could not be sent, the turn
/// fails: the error is reported and recorded, nothing is handed to the
/// engine, the input stays counted, and the loop awaits the next event.
pub proof fn lemma_submission_waits_for_start(
    view: LoopView,
    input: InputMessage,
    message: String,
)
    requires
        ready(view),
    ensures
        view.step(LoopEvent::Input(input)).actions == seq![
            ActionView::Emit {
                turn_id: view.controller.next_turn(),
                data: OutputDataView::Start,
            },
        ],
        view.step(LoopEvent::Input(input)).next.phase == (LoopPhase::StartingTurn { input }),
        view.step(LoopEvent::Input(input)).next.step(LoopEvent::StartSent).actions == seq![
            ActionView::Submit { items: submission_items(input) },
        ],
        view.step(LoopEvent::Input(input)).next.step(
            LoopEvent::SendFailed { message },
        ).actions == seq![
            ActionView::Emit {
                turn_id: view.controller.next_turn(),
                data: general_error_view(send_failure_text(message@)),
            },
        ],
        view.step(LoopEvent::Input(input)).next.step(
            LoopEvent::SendFailed { message },
        ).next == (LoopView {
            controller: ControllerView {
                turn_count: view.controller.next_turn(),
                state: ExecutionStateView::Error(send_failure_text(message@)),
                ..view.controller
            },
            phase: LoopPhase::AwaitingEvent,
        }),
{
}

/// A failed fetch of the engine's next event fails the turn and not the
/// loop: the error is reported under the number of the turn and recorded as
/// the state of the session, and the loop awaits the next event.
pub proof fn lemma_failed_fetch_is_recorded(view: LoopView, message: String)
    requires
        view.phase is ProcessingTurn,
    ensures
        view.step(LoopEvent::EngineFailed { message }).actions == seq![
            ActionView::Emit {
                turn_id: view.controller.turn_count,
                data: general_error_view(message@),
            },
        ],
        view.step(LoopEvent::EngineFailed { message }).next == (LoopView {
            controller: ControllerView {
                state: ExecutionStateView::Error(message@),
                ..view.controller
            },
            phase: LoopPhase::AwaitingEvent,
        }),
{
}

/// An input that comes while the loop is busy with another is given back
/// whole, and nothing else happens.
pub proof fn lemma_untaken_input_is_given_back(view: LoopView, input: InputMessage)
    requires
        view.phase is HoldingInput || view.phase is StartingTurn || view.phase is ProcessingTurn,
    ensures
        view.step(LoopEvent::Input(input)).next == view,
        view.step(LoopEvent::Input(input)).actions == seq![ActionView::GiveBack { input }],
{
}

/// A stop that comes while an input is held drops the input: the command
/// is answered, the loop reports its last `Completed` and ends, and nothing
/// is handed to the engine then or ever after.
pub proof fn lemma_stop_drops_held_input(
    view: LoopView,
    input: InputMessage,
    later: Seq<LoopEvent>,
)
    requires
        view.phase == (LoopPhase::HoldingInput { input }),
    ensures
        view.step(LoopEvent::Control(ControlCommand::Stop)).actions == seq![
            ActionView::Respond,
            ActionView::Emit {
                turn_id: view.controller.turn_count,
                data: OutputDataView::Completed,
            },
        ],
        view.step(LoopEvent::Control(ControlCommand::Stop)).next.phase is Exited,
        view.step(LoopEvent::Control(ControlCommand::Stop)).next.controller.should_stop,
        view.step(LoopEvent::Control(ControlCommand::Stop)).next.controller.turn_count
            == view.controller.turn_count,
        view.step(LoopEvent::Control(ControlCommand::Stop)).next.controller.state
            == ExecutionStateView::Stopped,
        !view.step(LoopEvent::Control(ControlCommand::Stop)).next.controller.is_paused,
        view.step(LoopEvent::Control(ControlCommand::Stop)).next.run(later).actions == Seq::<
            ActionView,
        >::empty(),
{
    let o = view.step(LoopEvent::Control(ControlCommand::Stop));
    assert(o.actions =~= seq![
        ActionView::Respond,
        ActionView::Emit { turn_id: view.controller.turn_count, data: OutputDataView::Completed },
    ]);
    lemma_exited_is_final(o.next, later);
}

/// A stop ends the loop in whatever phase it comes: the command is
/// answered, the session is stopped and not paused, and the loop has ended.
/// The session still answers commands then: a second stop succeeds and
/// leaves the same state, and a pause or a resume succeeds and changes
/// nothing.
pub proof fn lemma_stop_ends_the_loop(view: LoopView, command: ControlCommand)
    requires
        !(view.phase is Exited),
        view.controller.active,
    ensures
        view.step(LoopEvent::Control(ControlCommand::Stop)).next.phase is Exited,
        view.step(LoopEvent::Control(ControlCommand::Stop)).next.controller == (ControllerView {
            should_stop: true,
            is_paused: false,
            state: ExecutionStateView::Stopped,
            ..view.controller
        }),
        view.step(LoopEvent::Control(ControlCommand::Stop)).actions[0] == ActionView::Respond,
        view.step(LoopEvent::Control(ControlCommand::Stop)).next.controller.answer() is Ok,
        view.step(LoopEvent::Control(ControlCommand::Stop)).next.controller.request(command)
            == view.step(LoopEvent::Control(ControlCommand::Stop)).next.controller,
{
}

/// The count of turns never goes down, and goes up by one at most for each
/// event, as long as it does not pass the end of its range.
pub proof fn lemma_count_never_goes_down(view: LoopView, events: Seq<LoopEvent>)
    requires
        view.controller.turn_count + events.len() <= u64::MAX,
    ensures
        view.controller.turn_count <= view.run(events).next.controller.turn_count
            <= view.controller.turn_count + events.len(),
    decreases events.len(),
{
    if events.len() > 0 {
        lemma_count_never_goes_down(view, events.drop_last());
    }
}

/// Whether the loop is ready for an input: it awaits an event and the
/// session is neither paused nor stopped.
pub open spec fn ready(view: LoopView) -> bool {
    &&& view.phase is AwaitingEvent
    &&& !view.controller.is_paused
    &&& !view.controller.should_stop
}

/// Whether the event goes on with a turn: an event of the engine that does
/// not end it.
pub open spec fn continues_turn(event: LoopEvent) -> bool {
    event matches LoopEvent::Engine(e) && !e.is_terminal()
}

/// Whether the event ends a turn: the end of the task, a turn broken off,
/// or a failure.
pub open spec fn ends_turn(event: LoopEvent) -> bool {
    ||| event matches LoopEvent::Engine(e) && e.is_terminal()
    ||| event is EngineFailed
    ||| event is SubmitFailed
    ||| event is SendFailed
}

/// Whether the events are those of one whole turn: an input; then either
/// the failure to send `Start`, or the word that `Start` was sent, events of
/// the engine that go on with the turn, and one event that ends it.
pub open spec fn is_turn(script: Seq<LoopEvent>) -> bool {
    &&& script.len() >= 2
    &&& script[0] is Input
    &&& if script.len() == 2 {
        script[1] is SendFailed
    } else {
        &&& script[1] is StartSent
        &&& ends_turn(script.last())
        &&& forall|i: int| 1 < i < script.len() - 1 ==> continues_turn(#[trigger] script[i])
    }
}

/// The turns of `scripts`, one after the other, as one sequence of events.
pub open spec fn joined(scripts: Seq<Seq<LoopEvent>>) -> Seq<LoopEvent>
    decreases scripts.len(),
{
    if scripts.len() == 0 {
        Seq::empty()
    } else {
        joined(scripts.drop_last()) + scripts.last()
    }
}

/// Whether every report among the actions carries a number above `low` and
/// not above `high`, and no action answers a command.
pub open spec fn reports_within(actions: Seq<ActionView>, low: int, high: int) -> bool {
    forall|i: int|
        0 <= i < actions.len() ==> match #[trigger] actions[i] {
            ActionView::Emit { turn_id, .. } => low < turn_id <= high,
            ActionView::Respond => false,
            _ => true,
        }
}

/// Whether the numbers of the reports among the actions never go down.
pub open spec fn reports_in_order(actions: Seq<ActionView>) -> bool {
    forall|i: int, j: int|
        0 <= i <= j < actions.len() && (#[trigger] actions[i]) is Emit && (
        #[trigger] actions[j]) is Emit ==> actions[i]->Emit_turn_id <= actions[j]->Emit_turn_id
}

proof fn lemma_within_turn(view: LoopView, events: Seq<LoopEvent>)
    requires
        view.phase is ProcessingTurn,
        forall|i: int| 0 <= i < events.len() ==> continues_turn(#[trigger] events[i]),
    ensures
        view.run(events).next == view,
        reports_within(
            view.run(events).actions,
            view.controller.turn_count - 1,
            view.controller.turn_count as int,
        ),
        nothing_submitted(view.run(events).actions),
    decreases events.len(),
{
    if events.len() > 0 {
        let front = events.drop_last();
        assert forall|i: int| 0 <= i < front.len() implies continues_turn(#[trigger] front[i]) by {
            assert(front[i] == events[i]);
        }
        lemma_within_turn(view, front);
        let before = view.run(front);
        let last = events.last();
        assert(continues_turn(events[events.len() - 1]));
        let after = before.next.step(last);
        let all = view.run(events).actions;
        assert forall|i: int| 0 <= i < all.len() implies match #[trigger] all[i] {
            ActionView::Emit { turn_id, .. } => view.controller.turn_count - 1 < turn_id
                <= view.controller.turn_count,
            ActionView::Respond => false,
            _ => true,
        } && !(all[i] is Submit) by {
            if i < before.actions.len() {
                assert(all[i] == before.actions[i]);
            } else {
                assert(all[i] == after.actions[i - before.actions.len()]);
            }
        }
    }
}

/// One whole turn, run by a loop that is ready: the input is counted once,
/// the first action reports `Start`, every report carries the new count, the
/// last one ends the turn for its consumer, and the loop is ready again.
pub proof fn lemma_turn(view: LoopView, script: Seq<LoopEvent>)
    requires
        ready(view),
        is_turn(script),
        view.controller.turn_count < u64::MAX,
    ensures
        ready(view.run(script).next),
        view.run(script).next.controller.turn_count == view.controller.turn_count + 1,
        reports_within(
            view.run(script).actions,
            view.controller.turn_count as int,
            view.controller.turn_count + 1,
        ),
        view.run(script).actions.len() >= 2,
        view.run(script).actions[0] == (ActionView::Emit {
            turn_id: (view.controller.turn_count + 1) as u64,
            data: OutputDataView::Start,
        }),
        view.run(script).actions.last() matches ActionView::Emit { data, .. }
            && data.is_terminal(),
{
    let head = seq![script[0]];
    let started = view.step(script[0]);
    lemma_run_one(view, script[0]);
    if script.len() == 2 {
        let tail = seq![script[1]];
        assert(script =~= head + tail);
        let ended = started.next.step(script[1]);
        lemma_run_one(started.next, script[1]);
        lemma_run_append(view, head, tail);
        let all = view.run(script).actions;
        assert(all =~= started.actions + ended.actions);
        assert(all.last() == ended.actions.last());
        assert forall|i: int| 0 <= i < all.len() implies match #[trigger] all[i] {
            ActionView::Emit { turn_id, .. } => view.controller.turn_count < turn_id
                <= view.controller.turn_count + 1,
            ActionView::Respond => false,
            _ => true,
        } by {
            if i < started.actions.len() {
                assert(all[i] == started.actions[i]);
            } else {
                assert(all[i] == ended.actions[i - started.actions.len()]);
            }
        }
    } else {
        let second = seq![script[1]];
        let middle = script.subrange(2, script.len() - 1);
        let tail = seq![script.last()];
        assert(script =~= head + second + middle + tail);
        let submitted = started.next.step(script[1]);
        lemma_run_one(started.next, script[1]);
        assert forall|i: int| 0 <= i < middle.len() implies continues_turn(
            #[trigger] middle[i],
        ) by {
            assert(middle[i] == script[i + 2]);
        }
        lemma_within_turn(submitted.next, middle);
        let ended = submitted.next.step(script.last());
        lemma_run_one(submitted.next.run(middle).next, script.last());
        lemma_run_append(view, head, second);
        lemma_run_append(view, head + second, middle);
        lemma_run_append(view, head + second + middle, tail);
        let mid = submitted.next.run(middle).actions;
        let all = view.run(script).actions;
        assert(all =~= started.actions + submitted.actions + mid + ended.actions);
        assert(ended.actions.len() >= 1);
        assert(ended.actions.last() matches ActionView::Emit { data, .. } && data.is_terminal());
        assert(all.last() == ended.actions.last());
        let a = started.actions.len();
        let b = submitted.actions.len();
        assert forall|i: int| 0 <= i < all.len() implies match #[trigger] all[i] {
            ActionView::Emit { turn_id, .. } => view.controller.turn_count < turn_id
                <= view.controller.turn_count + 1,
            ActionView::Respond => false,
            _ => true,
        } by {
            if i < a {
                assert(all[i] == started.actions[i]);
            } else if i < a + b {
                assert(all[i] == submitted.actions[i - a]);
            } else if i < a + b + mid.len() {
                assert(all[i] == mid[i - a - b]);
            } else {
                assert(all[i] == ended.actions[i - a - b - mid.len()]);
            }
        }
    }
}

/// Every input is counted once and every report is numbered by its input:
/// after whole turns for `scripts.len()` inputs, run by a loop that is ready
/// and was never stopped in between, the count of turns has grown by the
/// number of inputs, every report carries a number from the first new count
/// to the last, and the numbers come in the order of the inputs.
pub proof fn lemma_turns_are_counted(view: LoopView, scripts: Seq<Seq<LoopEvent>>)
    requires
        ready(view),
        forall|i: int| 0 <= i < scripts.len() ==> is_turn(#[trigger] scripts[i]),
        view.controller.turn_count + scripts.len() <= u64::MAX,
    ensures
        ready(view.run(joined(scripts)).next),
        view.run(joined(scripts)).next.controller.turn_count == view.controller.turn_count
            + scripts.len(),
        reports_within(
            view.run(joined(scripts)).actions,
            view.controller.turn_count as int,
            view.controller.turn_count + scripts.len(),
        ),
        reports_in_order(view.run(joined(scripts)).actions),
    decreases scripts.len(),
{
    if scripts.len() > 0 {
        let front = scripts.drop_last();
        assert forall|i: int| 0 <= i < front.len() implies is_turn(#[trigger] front[i]) by {
            assert(front[i] == scripts[i]);
        }
        lemma_turns_are_counted(view, front);
        let before = view.run(joined(front));
        assert(is_turn(scripts[scripts.len() - 1]));
        lemma_turn(before.next, scripts.last());
        lemma_run_append(view, joined(front), scripts.last());
        let after = before.next.run(scripts.last());
        let all = view.run(joined(scripts)).actions;
        assert(all =~= before.actions + after.actions);
        let low = view.controller.turn_count as int;
        let n = scripts.len() as int;
        assert forall|i: int| 0 <= i < all.len() implies match #[trigger] all[i] {
            ActionView::Emit { turn_id, .. } => low < turn_id <= low + n,
            ActionView::Respond => false,
            _ => true,
        } by {
            if i < before.actions.len() {
                assert(all[i] == before.actions[i]);
            } else {
                assert(all[i] == after.actions[i - before.actions.len()]);
            }
        }
        assert forall|i: int, j: int|
            0 <= i <= j < all.len() && (#[trigger] all[i]) is Emit && (
            #[trigger] all[j]) is Emit implies all[i]->Emit_turn_id <= all[j]->Emit_turn_id by {
            if j < before.actions.len() {
                assert(all[i] == before.actions[i]);
                assert(all[j] == before.actions[j]);
            } else if i < before.actions.len() {
                assert(all[i] == before.actions[i]);
                assert(all[j] == after.actions[j - before.actions.len()]);
            } else {
                assert(all[i] == after.actions[i - before.actions.len()]);
                assert(all[j] == after.actions[j - before.actions.len()]);
            }
        }
    } else {
        assert(joined(scripts) =~= Seq::<LoopEvent>::empty());
    }
}

} // verus!

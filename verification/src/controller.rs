//! The state of a session and the commands that steer it.

use vstd::prelude::*;
use crate::error::{AgentError, AgentErrorView};
use crate::text::join;

verus! {

/// Where a session stands.
#[derive(Debug, PartialEq, Eq)]
pub enum ExecutionState {
    /// No loop is running.
    Idle,
    /// The loop is running.
    Running,
    /// The loop holds back new input until it is resumed.
    Paused,
    /// The loop was stopped for good.
    Stopped,
    /// A turn has failed, for the reason given; the loop goes on.
    Error(String),
}

/// What an [`ExecutionState`] stands for.
pub enum ExecutionStateView {
    Idle,
    Running,
    Paused,
    Stopped,
    Error(Seq<char>),
}

impl View for ExecutionState {
    type V = ExecutionStateView;

    open spec fn view(&self) -> ExecutionStateView {
        match *self {
            ExecutionState::Idle => ExecutionStateView::Idle,
            ExecutionState::Running => ExecutionStateView::Running,
            ExecutionState::Paused => ExecutionStateView::Paused,
            ExecutionState::Stopped => ExecutionStateView::Stopped,
            ExecutionState::Error(reason) => ExecutionStateView::Error(reason@),
        }
    }
}

impl Clone for ExecutionState {
    fn clone(&self) -> (r: ExecutionState)
        ensures
            r == *self,
    {
        match self {
            ExecutionState::Idle => ExecutionState::Idle,
            ExecutionState::Running => ExecutionState::Running,
            ExecutionState::Paused => ExecutionState::Paused,
            ExecutionState::Stopped => ExecutionState::Stopped,
            ExecutionState::Error(reason) => ExecutionState::Error(reason.clone()),
        }
    }
}

/// Where a session stands, without the reason of an error.
#[derive(Clone, Copy, Debug, PartialEq, Eq, Structural)]
pub enum PublicExecutionState {
    Idle,
    Running,
    Paused,
    Stopped,
    Error,
}

impl ExecutionStateView {
    /// The state without the reason of an error.
    pub open spec fn public(self) -> PublicExecutionState {
        match self {
            ExecutionStateView::Idle => PublicExecutionState::Idle,
            ExecutionStateView::Running => PublicExecutionState::Running,
            ExecutionStateView::Paused => PublicExecutionState::Paused,
            ExecutionStateView::Stopped => PublicExecutionState::Stopped,
            ExecutionStateView::Error(_) => PublicExecutionState::Error,
        }
    }
}

impl PublicExecutionState {
    /// The name of the state.
    pub open spec fn name(self) -> Seq<char> {
        match self {
            PublicExecutionState::Idle => "Idle"@,
            PublicExecutionState::Running => "Running"@,
            PublicExecutionState::Paused => "Paused"@,
            PublicExecutionState::Stopped => "Stopped"@,
            PublicExecutionState::Error => "Error"@,
        }
    }

    /// The name of the state.
    pub fn to_text(&self) -> (r: String)
        ensures
            r@ == self.name(),
    {
        match self {
            PublicExecutionState::Idle => "Idle".to_string(),
            PublicExecutionState::Running => "Running".to_string(),
            PublicExecutionState::Paused => "Paused".to_string(),
            PublicExecutionState::Stopped => "Stopped".to_string(),
            PublicExecutionState::Error => "Error".to_string(),
        }
    }
}

impl From<ExecutionState> for PublicExecutionState {
    /// The state without the reason of an error.
    fn from(state: ExecutionState) -> (r: PublicExecutionState) {
        match state {
            ExecutionState::Idle => PublicExecutionState::Idle,
            ExecutionState::Running => PublicExecutionState::Running,
            ExecutionState::Paused => PublicExecutionState::Paused,
            ExecutionState::Stopped => PublicExecutionState::Stopped,
            ExecutionState::Error(_) => PublicExecutionState::Error,
        }
    }
}

impl vstd::std_specs::convert::FromSpecImpl<ExecutionState> for PublicExecutionState {
    open spec fn obeys_from_spec() -> bool {
        true
    }

    open spec fn from_spec(state: ExecutionState) -> PublicExecutionState {
        state@.public()
    }
}

/// A snapshot of a session's state.
#[derive(Clone, Copy, Debug, PartialEq, Eq, Structural)]
pub struct AgentExecutionState {
    pub execution_state: PublicExecutionState,
    /// How many inputs were accepted.
    pub turn_count: u64,
    pub is_paused: bool,
    pub should_stop: bool,
}

impl AgentExecutionState {
    /// Whether the loop is running or can go on running.
    pub fn is_active(&self) -> (r: bool)
        ensures
            r == (self.execution_state == PublicExecutionState::Running || self.execution_state
                == PublicExecutionState::Paused),
    {
        matches!(self.execution_state, PublicExecutionState::Running | PublicExecutionState::Paused)
    }

    /// Whether the session has come to an end: stopped, or failed.
    pub fn is_finished(&self) -> (r: bool)
        ensures
            r == (self.execution_state == PublicExecutionState::Stopped || self.execution_state
                == PublicExecutionState::Error),
    {
        matches!(self.execution_state, PublicExecutionState::Stopped | PublicExecutionState::Error)
    }
}

/// A command to a running loop.
#[derive(Clone, Copy, Debug, PartialEq, Eq, Structural)]
pub enum ControlCommand {
    /// Hold back new input.
    Pause,
    /// Take up input again.
    Resume,
    /// Stop for good.
    Stop,
}

impl ControlCommand {
    /// The word for the command in messages.
    pub open spec fn word(self) -> Seq<char> {
        match self {
            ControlCommand::Pause => "pause"@,
            ControlCommand::Resume => "resume"@,
            ControlCommand::Stop => "stop"@,
        }
    }

    fn as_word(&self) -> (r: &'static str)
        ensures
            r@ == self.word(),
    {
        match self {
            ControlCommand::Pause => "pause",
            ControlCommand::Resume => "resume",
            ControlCommand::Stop => "stop",
        }
    }

    /// The error of a command that could not be handed to the loop.
    pub open spec fn send_failure_view(self) -> AgentErrorView {
        AgentErrorView::ChannelSend { message: "Failed to send "@ + self.word() + " command"@ }
    }

    /// The error of a command whose answer never came.
    pub open spec fn receive_failure_view(self) -> AgentErrorView {
        AgentErrorView::ChannelReceive {
            message: "Failed to receive "@ + self.word() + " response"@,
        }
    }

    /// The error of a command that could not be handed to the loop.
    pub fn send_failure(&self) -> (r: AgentError)
        ensures
            r@ == self.send_failure_view(),
    {
        let mut message = join("Failed to send ", self.as_word());
        message.append(" command");
        AgentError::ChannelSend { message }
    }

    /// The error of a command whose answer never came.
    pub fn receive_failure(&self) -> (r: AgentError)
        ensures
            r@ == self.receive_failure_view(),
    {
        let mut message = join("Failed to receive ", self.as_word());
        message.append(" response");
        AgentError::ChannelReceive { message }
    }
}

/// The state that all holders of a session see: where the session stands,
/// how many inputs it has accepted, and the two flags that the loop
/// consults.
#[derive(Debug)]
pub struct AgentController {
    execution_state: ExecutionState,
    turn_count: u64,
    is_paused: bool,
    should_stop: bool,
    active: bool,
}

/// What an [`AgentController`] stands for.
pub struct ControllerView {
    pub state: ExecutionStateView,
    pub turn_count: u64,
    pub is_paused: bool,
    pub should_stop: bool,
    /// Whether a loop still takes commands.
    pub active: bool,
}

/// The error of a command to a controller without a loop.
pub open spec fn not_active_view() -> AgentErrorView {
    AgentErrorView::Execution { message: "Agent controller is not active"@ }
}

impl ControllerView {
    /// The state after `command` was applied. A stop always leaves the
    /// session stopped and not paused. Once a stop was applied, a pause and a
    /// resume change nothing.
    pub open spec fn apply(self, command: ControlCommand) -> ControllerView {
        match command {
            ControlCommand::Stop => ControllerView {
                should_stop: true,
                is_paused: false,
                state: ExecutionStateView::Stopped,
                ..self
            },
            ControlCommand::Pause => if self.should_stop {
                self
            } else {
                ControllerView { is_paused: true, state: ExecutionStateView::Paused, ..self }
            },
            ControlCommand::Resume => if self.should_stop {
                self
            } else {
                ControllerView { is_paused: false, state: ExecutionStateView::Running, ..self }
            },
        }
    }

    /// The state after a holder asked for `command`: the command applied
    /// where a loop takes commands, and nothing changed where none does.
    pub open spec fn request(self, command: ControlCommand) -> ControllerView {
        if self.active {
            self.apply(command)
        } else {
            self
        }
    }

    /// The answer to a holder that asked for a command.
    pub open spec fn answer(self) -> Result<(), AgentErrorView> {
        if self.active {
            Ok(())
        } else {
            Err(not_active_view())
        }
    }

    /// The count after one more input was accepted. The count wraps at the
    /// end of its range.
    pub open spec fn next_turn(self) -> u64 {
        if self.turn_count == u64::MAX {
            0
        } else {
            (self.turn_count + 1) as u64
        }
    }

    /// Whether the loop has to hold an input back: paused and not stopped.
    pub open spec fn must_wait(self) -> bool {
        self.is_paused && !self.should_stop
    }

    /// The snapshot that a holder gets.
    pub open spec fn snapshot(self) -> AgentExecutionState {
        AgentExecutionState {
            execution_state: self.state.public(),
            turn_count: self.turn_count,
            is_paused: self.is_paused,
            should_stop: self.should_stop,
        }
    }
}

impl View for AgentController {
    type V = ControllerView;

    closed spec fn view(&self) -> ControllerView {
        ControllerView {
            state: self.execution_state@,
            turn_count: self.turn_count,
            is_paused: self.is_paused,
            should_stop: self.should_stop,
            active: self.active,
        }
    }
}

impl AgentController {
    /// A controller for a session that has not begun: idle, no input
    /// accepted, neither paused nor stopped, ready for a loop.
    pub fn new() -> (r: AgentController)
        ensures
            r@ == (ControllerView {
                state: ExecutionStateView::Idle,
                turn_count: 0,
                is_paused: false,
                should_stop: false,
                active: true,
            }),
    {
        AgentController {
            execution_state: ExecutionState::Idle,
            turn_count: 0,
            is_paused: false,
            should_stop: false,
            active: true,
        }
    }

    /// A copy of the state, as another holder sees it.
    pub fn duplicate(&self) -> (r: AgentController)
        ensures
            r@ == self@,
    {
        AgentController {
            execution_state: self.execution_state.clone(),
            turn_count: self.turn_count,
            is_paused: self.is_paused,
            should_stop: self.should_stop,
            active: self.active,
        }
    }

    /// A snapshot of the state.
    pub fn state(&self) -> (r: AgentExecutionState)
        ensures
            r == self@.snapshot(),
    {
        AgentExecutionState {
            execution_state: PublicExecutionState::from(self.execution_state.clone()),
            turn_count: self.turn_count,
            is_paused: self.is_paused,
            should_stop: self.should_stop,
        }
    }

    /// Where the session stands, with the reason of an error.
    pub fn execution_state(&self) -> (r: &ExecutionState)
        ensures
            r@ == self@.state,
    {
        &self.execution_state
    }

    /// How many inputs were accepted.
    pub fn turn_count(&self) -> (r: u64)
        ensures
            r == self@.turn_count,
    {
        self.turn_count
    }

    /// Whether the loop holds back new input.
    pub fn is_paused(&self) -> (r: bool)
        ensures
            r == self@.is_paused,
    {
        self.is_paused
    }

    /// Whether the loop is to stop.
    pub fn should_stop(&self) -> (r: bool)
        ensures
            r == self@.should_stop,
    {
        self.should_stop
    }

    /// Whether a loop still takes commands.
    pub fn is_active(&self) -> (r: bool)
        ensures
            r == self@.active,
    {
        self.active
    }

    /// Whether the loop can go on: neither paused nor stopped.
    pub fn can_continue(&self) -> (r: bool)
        ensures
            r == (!self@.is_paused && !self@.should_stop),
    {
        !self.is_paused() && !self.should_stop()
    }

    /// Whether the loop has to wait before it goes on: it does while the
    /// session is paused and not stopped.
    pub fn wait_if_paused(&self) -> (r: bool)
        ensures
            r == self@.must_wait(),
    {
        self.is_paused() && !self.should_stop()
    }

    /// Counts one more accepted input.
    pub fn increment_turn_count(&mut self)
        ensures
            final(self)@ == (ControllerView { turn_count: old(self)@.next_turn(), ..old(self)@ }),
    {
        self.turn_count = if self.turn_count == u64::MAX {
            0
        } else {
            self.turn_count + 1
        };
    }

    /// Sets where the session stands.
    pub fn set_execution_state(&mut self, state: ExecutionState)
        ensures
            final(self)@ == (ControllerView { state: state@, ..old(self)@ }),
    {
        self.execution_state = state;
    }

    /// Records that a turn has failed for the reason `error`.
    pub fn set_error(&mut self, error: &str)
        ensures
            final(self)@ == (ControllerView {
                state: ExecutionStateView::Error(error@),
                ..old(self)@
            }),
    {
        self.set_execution_state(ExecutionState::Error(error.to_string()));
    }

    /// Records that a loop takes commands from now on.
    pub fn open(&mut self)
        ensures
            final(self)@ == (ControllerView { active: true, ..old(self)@ }),
    {
        self.active = true;
    }

    /// Records that the loop has ended: no command is taken from now on.
    pub fn close(&mut self)
        ensures
            final(self)@ == (ControllerView { active: false, ..old(self)@ }),
    {
        self.active = false;
    }

    /// Applies a command in the loop and gives the answer that the sender of
    /// the command is owed, which is always a success.
    pub fn handle_control_command(&mut self, command: ControlCommand) -> (r: Result<
        (),
        AgentError,
    >)
        ensures
            r is Ok,
            final(self)@ == old(self)@.apply(command),
    {
        match command {
            ControlCommand::Stop => {
                self.should_stop = true;
                self.is_paused = false;
                self.set_execution_state(ExecutionState::Stopped);
            },
            ControlCommand::Pause => {
                if !self.should_stop {
                    self.is_paused = true;
                    self.set_execution_state(ExecutionState::Paused);
                }
            },
            ControlCommand::Resume => {
                if !self.should_stop {
                    self.is_paused = false;
                    self.set_execution_state(ExecutionState::Running);
                }
            },
        }
        Ok(())
    }

    fn request(&mut self, command: ControlCommand) -> (r: Result<(), AgentError>)
        ensures
            final(self)@ == old(self)@.request(command),
            match r {
                Ok(_) => old(self)@.answer() is Ok,
                Err(e) => old(self)@.answer() == Err::<(), AgentErrorView>(e@),
            },
    {
        if self.active {
            self.handle_control_command(command)
        } else {
            Err(AgentError::Execution { message: "Agent controller is not active".to_string() })
        }
    }

    /// Asks the loop to hold back new input and waits for its answer. Fails
    /// where no loop takes commands.
    pub fn pause(&mut self) -> (r: Result<(), AgentError>)
        ensures
            final(self)@ == old(self)@.request(ControlCommand::Pause),
            match r {
                Ok(_) => old(self)@.answer() is Ok,
                Err(e) => old(self)@.answer() == Err::<(), AgentErrorView>(e@),
            },
    {
        self.request(ControlCommand::Pause)
    }

    /// Asks the loop to take up input again and waits for its answer. Fails
    /// where no loop takes commands.
    pub fn resume(&mut self) -> (r: Result<(), AgentError>)
        ensures
            final(self)@ == old(self)@.request(ControlCommand::Resume),
            match r {
                Ok(_) => old(self)@.answer() is Ok,
                Err(e) => old(self)@.answer() == Err::<(), AgentErrorView>(e@),
            },
    {
        self.request(ControlCommand::Resume)
    }

    /// Asks the loop to stop for good and waits for its answer. Fails where
    /// no loop takes commands.
    pub fn stop(&mut self) -> (r: Result<(), AgentError>)
        ensures
            final(self)@ == old(self)@.request(ControlCommand::Stop),
            match r {
                Ok(_) => old(self)@.answer() is Ok,
                Err(e) => old(self)@.answer() == Err::<(), AgentErrorView>(e@),
            },
    {
        self.request(ControlCommand::Stop)
    }
}

/// Stopping is idempotent: where a loop takes commands, a stop succeeds and
/// leaves the session stopped and not paused, whatever its state was, and a
/// second stop succeeds too and changes nothing.
pub proof fn lemma_stop_is_idempotent(c: ControllerView)
    requires
        c.active,
    ensures
        c.answer() is Ok,
        c.request(ControlCommand::Stop).answer() is Ok,
        c.request(ControlCommand::Stop).should_stop,
        !c.request(ControlCommand::Stop).is_paused,
        c.request(ControlCommand::Stop).state == ExecutionStateView::Stopped,
        c.request(ControlCommand::Stop).turn_count == c.turn_count,
        c.request(ControlCommand::Stop).request(ControlCommand::Stop) == c.request(
            ControlCommand::Stop,
        ),
{
}

/// Applying a stop gives the same state whatever came before: stopped, not
/// paused, the stop flag set, and the count of turns as it was.
pub proof fn lemma_stop_always_stops(c: ControllerView)
    ensures
        c.apply(ControlCommand::Stop) == (ControllerView {
            should_stop: true,
            is_paused: false,
            state: ExecutionStateView::Stopped,
            ..c
        }),
        c.apply(ControlCommand::Stop).apply(ControlCommand::Stop) == c.apply(ControlCommand::Stop),
{
}

/// Pausing is idempotent: where a loop takes commands and the session is
/// paused, a pause succeeds, leaves the session paused, and changes nothing.
pub proof fn lemma_pause_is_idempotent(c: ControllerView)
    requires
        c.active,
    ensures
        c.answer() is Ok,
        c.request(ControlCommand::Pause).answer() is Ok,
        !c.should_stop ==> c.request(ControlCommand::Pause).is_paused,
        c.is_paused ==> c.request(ControlCommand::Pause).is_paused,
        c.request(ControlCommand::Pause).request(ControlCommand::Pause) == c.request(
            ControlCommand::Pause,
        ),
{
}

/// A stop cannot be taken back: once a stop was applied, a pause and a
/// resume leave the state as it is.
pub proof fn lemma_stop_is_final(c: ControllerView, command: ControlCommand)
    requires
        c.should_stop,
        command != ControlCommand::Stop,
    ensures
        c.apply(command) == c,
        c.request(command) == c,
{
}

/// No command touches the count of accepted inputs.
pub proof fn lemma_commands_keep_count(c: ControllerView, command: ControlCommand)
    ensures
        c.apply(command).turn_count == c.turn_count,
        c.request(command).turn_count == c.turn_count,
        c.apply(command).active == c.active,
{
}

} // verus!

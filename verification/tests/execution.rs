use agent_core::controller::{AgentController, ControlCommand, ExecutionState, PublicExecutionState};
use agent_core::engine::{EngineEvent, InputItem, Op};
use agent_core::error::OutputError;
use agent_core::error::AgentError;
use agent_core::execution::{
    execution_loop, process_input_message, Awaited, ExecutionContext, LoopAction, LoopEvent,
    LoopPhase,
};
use agent_core::messages::{ImageInput, InputMessage, OutputData};
use agent_core::plan::{PlanItemArg, StepStatus, UpdatePlanArgs};

fn running() -> ExecutionContext {
    let mut c = AgentController::new();
    c.set_execution_state(ExecutionState::Running);
    ExecutionContext::new(c)
}

fn delta(text: &str) -> LoopEvent {
    LoopEvent::Engine(EngineEvent::AgentMessageDelta { delta: text.to_string() })
}

fn emitted(actions: &[LoopAction]) -> Vec<(u64, &OutputData)> {
    let mut out = Vec::new();
    for a in actions {
        if let LoopAction::Emit(m) = a {
            out.push((m.turn_id, &m.data));
        }
    }
    out
}

fn submissions(actions: &[LoopAction]) -> usize {
    actions.iter().filter(|a| matches!(a, LoopAction::Submit(_))).count()
}

#[test]
fn hello_gives_start_deltas_completed_under_turn_one() {
    let mut ctx = running();
    let events = vec![
        LoopEvent::Input(InputMessage::new("hello")),
        LoopEvent::StartSent,
        delta("Hi"),
        delta(" there"),
        LoopEvent::Engine(EngineEvent::TaskComplete),
    ];
    let actions = execution_loop(&mut ctx, events);
    let out = emitted(&actions);
    assert_eq!(out.len(), 4);
    assert!(out.iter().all(|(id, _)| *id == 1));
    assert!(matches!(out[0].1, OutputData::Start));
    assert!(matches!(out[1].1, OutputData::PrimaryDelta { content } if content == "Hi"));
    assert!(matches!(out[2].1, OutputData::PrimaryDelta { content } if content == " there"));
    assert!(matches!(out[3].1, OutputData::Completed));
    assert_eq!(submissions(&actions), 1);
    assert_eq!(ctx.controller().turn_count(), 1);
    assert!(ctx.accepts_input());
}

#[test]
fn every_input_is_counted_once() {
    let mut ctx = running();
    let mut events = Vec::new();
    for i in 0..5 {
        events.push(LoopEvent::Input(InputMessage::new(&format!("question {}", i))));
        events.push(LoopEvent::StartSent);
        events.push(delta("a"));
        events.push(LoopEvent::Engine(EngineEvent::TokenCount));
        events.push(LoopEvent::Engine(EngineEvent::TaskComplete));
    }
    let actions = execution_loop(&mut ctx, events);
    assert_eq!(ctx.controller().turn_count(), 5);
    let ids: Vec<u64> = emitted(&actions).iter().map(|(id, _)| *id).collect();
    assert_eq!(ids, vec![1, 1, 1, 2, 2, 2, 3, 3, 3, 4, 4, 4, 5, 5, 5]);
    assert_eq!(submissions(&actions), 5);
}

#[test]
fn submission_carries_text_then_images() {
    let mut ctx = running();
    let input = InputMessage::new("look")
        .add_image(ImageInput::new("data:one", "image/png"))
        .add_image(ImageInput::new("data:two", "image/jpeg"));
    let actions = process_input_message(&mut ctx, input);
    assert_eq!(actions.len(), 1);
    assert!(matches!(&actions[0], LoopAction::Emit(m) if m.turn_id == 1 && matches!(m.data, OutputData::Start)));
    assert!(matches!(ctx.phase(), LoopPhase::StartingTurn { input } if input.message == "look"));
    assert_eq!(ctx.awaits(), Awaited::Delivery);
    assert_eq!(ctx.controller().turn_count(), 1);
    let actions = ctx.step(LoopEvent::StartSent);
    assert_eq!(actions.len(), 1);
    match &actions[0] {
        LoopAction::Submit(s) => {
            let Op::UserInput { items } = &s.op;
            assert_eq!(
                items,
                &vec![
                    InputItem::Text { text: "look".to_string() },
                    InputItem::Image { image_url: "data:one".to_string() },
                    InputItem::Image { image_url: "data:two".to_string() },
                ]
            );
            assert_eq!(s.id.len(), 36);
            let hyphens: Vec<usize> =
                s.id.char_indices().filter(|(_, c)| *c == '-').map(|(i, _)| i).collect();
            assert_eq!(hyphens, vec![8, 13, 18, 23]);
            assert!(s.id.chars().all(|c| c == '-' || c.is_ascii_hexdigit()));
            assert_eq!(s.id.as_bytes()[14], b'4');
        }
        _ => panic!("expected a submission"),
    }
    assert!(matches!(ctx.phase(), LoopPhase::ProcessingTurn));
    assert_eq!(ctx.controller().turn_count(), 1);
}

#[test]
fn paused_input_waits_for_resume() {
    let mut ctx = running();
    let a = ctx.step(LoopEvent::Control(ControlCommand::Pause));
    assert_eq!(a.len(), 1);
    assert!(matches!(&a[0], LoopAction::Respond(Ok(()))));
    let a = ctx.step(LoopEvent::Input(InputMessage::new("later")));
    assert!(a.is_empty());
    assert!(matches!(ctx.phase(), LoopPhase::HoldingInput { input } if input.message == "later"));
    assert_eq!(ctx.controller().turn_count(), 0);
    let a = ctx.step(LoopEvent::Tick);
    assert!(a.is_empty());
    let a = ctx.step(LoopEvent::Control(ControlCommand::Pause));
    assert_eq!(a.len(), 1);
    assert_eq!(submissions(&a), 0);
    let a = ctx.step(LoopEvent::Control(ControlCommand::Resume));
    assert_eq!(a.len(), 2);
    assert!(matches!(&a[0], LoopAction::Respond(Ok(()))));
    assert!(matches!(&a[1], LoopAction::Emit(m) if m.turn_id == 1 && matches!(m.data, OutputData::Start)));
    assert_eq!(submissions(&a), 0);
    let a = ctx.step(LoopEvent::StartSent);
    assert_eq!(a.len(), 1);
    match &a[0] {
        LoopAction::Submit(s) => {
            let Op::UserInput { items } = &s.op;
            assert_eq!(items, &vec![InputItem::Text { text: "later".to_string() }]);
        }
        _ => panic!("expected a submission"),
    }
    assert_eq!(ctx.controller().turn_count(), 1);
    assert!(matches!(ctx.phase(), LoopPhase::ProcessingTurn));
}

#[test]
fn stop_while_paused_drops_the_input() {
    let mut ctx = running();
    ctx.step(LoopEvent::Control(ControlCommand::Pause));
    ctx.step(LoopEvent::Input(InputMessage::new("never")));
    let a = ctx.step(LoopEvent::Control(ControlCommand::Stop));
    assert_eq!(a.len(), 2);
    assert!(matches!(&a[0], LoopAction::Respond(Ok(()))));
    assert!(matches!(&a[1], LoopAction::Emit(m) if m.turn_id == 0 && matches!(m.data, OutputData::Completed)));
    assert!(ctx.has_exited());
    assert_eq!(ctx.controller().turn_count(), 0);
    assert_eq!(ctx.controller().state().execution_state, PublicExecutionState::Stopped);
    let later = execution_loop(
        &mut ctx,
        vec![
            LoopEvent::Control(ControlCommand::Resume),
            LoopEvent::Tick,
            LoopEvent::Input(InputMessage::new("x")),
        ],
    );
    assert!(later.is_empty());
    assert_eq!(ctx.controller().turn_count(), 0);
}

#[test]
fn closed_input_ends_the_loop_idle() {
    let mut ctx = running();
    let a = ctx.step(LoopEvent::InputClosed);
    assert_eq!(a.len(), 1);
    assert!(matches!(&a[0], LoopAction::Emit(m) if m.turn_id == 0 && matches!(m.data, OutputData::Completed)));
    assert!(ctx.has_exited());
    assert_eq!(ctx.controller().state().execution_state, PublicExecutionState::Idle);
    assert!(!ctx.controller().should_stop());
    assert!(!ctx.controller().is_active());
}

#[test]
fn closed_control_ends_the_loop_idle() {
    let mut ctx = running();
    let a = ctx.step(LoopEvent::ControlClosed);
    assert_eq!(a.len(), 1);
    assert!(ctx.has_exited());
    assert_eq!(ctx.controller().state().execution_state, PublicExecutionState::Idle);
}

#[test]
fn stop_ends_the_loop_stopped() {
    let mut ctx = running();
    let a = ctx.step(LoopEvent::Control(ControlCommand::Stop));
    assert_eq!(a.len(), 2);
    assert!(ctx.has_exited());
    assert_eq!(ctx.controller().state().execution_state, PublicExecutionState::Stopped);
    assert!(ctx.controller().should_stop());
    assert_eq!(ctx.awaits(), Awaited::Nothing);
}

#[test]
fn tick_changes_nothing() {
    let mut ctx = running();
    let a = ctx.step(LoopEvent::Tick);
    assert!(a.is_empty());
    assert!(ctx.accepts_input());
    assert_eq!(ctx.controller().state().execution_state, PublicExecutionState::Running);
}

#[test]
fn fetch_error_ends_the_turn_and_not_the_loop() {
    let mut ctx = running();
    ctx.step(LoopEvent::Input(InputMessage::new("q")));
    ctx.step(LoopEvent::StartSent);
    let a = ctx.step(LoopEvent::EngineFailed { message: "stream closed".to_string() });
    assert_eq!(a.len(), 1);
    assert!(matches!(&a[0], LoopAction::Emit(m) if m.turn_id == 1
        && m.data_is_general("stream closed")));
    assert!(ctx.accepts_input());
    assert_eq!(
        ctx.controller().execution_state(),
        &ExecutionState::Error("stream closed".to_string())
    );
    assert_eq!(ctx.controller().state().execution_state, PublicExecutionState::Error);
    let a = ctx.step(LoopEvent::Input(InputMessage::new("next")));
    assert!(matches!(&a[0], LoopAction::Emit(m) if m.turn_id == 2 && matches!(m.data, OutputData::Start)));
    ctx.step(LoopEvent::StartSent);
    let a = ctx.step(LoopEvent::Engine(EngineEvent::TaskComplete));
    assert!(matches!(&a[0], LoopAction::Emit(m) if m.turn_id == 2 && matches!(m.data, OutputData::Completed)));
    assert_eq!(ctx.controller().turn_count(), 2);
    assert!(!ctx.has_exited());
}

trait GeneralCheck {
    fn data_is_general(&self, text: &str) -> bool;
}

impl GeneralCheck for agent_core::messages::OutputMessage {
    fn data_is_general(&self, text: &str) -> bool {
        matches!(&self.data, OutputData::Error { error: OutputError::General { message } } if message == text)
    }
}

#[test]
fn refused_submission_is_reported_and_recorded() {
    let mut ctx = running();
    ctx.step(LoopEvent::Input(InputMessage::new("q")));
    ctx.step(LoopEvent::StartSent);
    let a = ctx.step(LoopEvent::SubmitFailed { message: "no engine".to_string() });
    assert_eq!(a.len(), 1);
    assert!(matches!(&a[0], LoopAction::Emit(m) if m.turn_id == 1
        && m.data_is_general("Codex error: no engine")));
    assert_eq!(
        ctx.controller().execution_state(),
        &ExecutionState::Error("Codex error: no engine".to_string())
    );
    assert!(ctx.accepts_input());
}

#[test]
fn failed_send_is_reported_and_recorded() {
    let mut ctx = running();
    ctx.step(LoopEvent::Input(InputMessage::new("q")));
    ctx.step(LoopEvent::StartSent);
    let a = ctx.step(LoopEvent::SendFailed { message: "sending into a closed channel".to_string() });
    let text = "Channel send error: Failed to send message: sending into a closed channel";
    assert_eq!(a.len(), 1);
    assert!(matches!(&a[0], LoopAction::Emit(m) if m.data_is_general(text)));
    assert_eq!(ctx.controller().execution_state(), &ExecutionState::Error(text.to_string()));
    assert!(ctx.accepts_input());
}

#[test]
fn aborted_turn_ends_with_an_error() {
    let mut ctx = running();
    ctx.step(LoopEvent::Input(InputMessage::new("q")));
    ctx.step(LoopEvent::StartSent);
    let a = ctx.step(LoopEvent::Engine(EngineEvent::TurnAborted));
    assert_eq!(a.len(), 1);
    assert!(matches!(&a[0], LoopAction::Emit(m) if m.data_is_general("Turn was aborted")));
    assert!(ctx.accepts_input());
}

#[test]
fn plan_update_goes_to_the_plan_stream_only() {
    let mut ctx = running();
    ctx.step(LoopEvent::Input(InputMessage::new("plan")));
    ctx.step(LoopEvent::StartSent);
    let args = UpdatePlanArgs {
        explanation: Some("why".to_string()),
        plan: vec![
            PlanItemArg { step: "one".to_string(), status: StepStatus::Completed },
            PlanItemArg { step: "two".to_string(), status: StepStatus::Pending },
        ],
    };
    let a = ctx.step(LoopEvent::Engine(EngineEvent::PlanUpdate { args }));
    assert_eq!(a.len(), 1);
    match &a[0] {
        LoopAction::EmitPlan(p) => {
            assert_eq!(p.todos.len(), 2);
            assert_eq!(p.todos[0].content, "one");
            assert_eq!(p.todos[0].status, StepStatus::Completed);
            assert_eq!(p.todos[1].content, "two");
            assert_eq!(p.todos[1].status, StepStatus::Pending);
            assert_eq!(p.metadata.as_ref().unwrap().description.as_deref(), Some("why"));
        }
        _ => panic!("expected a plan"),
    }
    assert!(matches!(ctx.phase(), LoopPhase::ProcessingTurn));
}

#[test]
fn events_out_of_phase_are_passed_over() {
    let mut ctx = running();
    assert!(ctx.step(LoopEvent::Engine(EngineEvent::TaskComplete)).is_empty());
    assert!(ctx.step(LoopEvent::EngineFailed { message: "x".to_string() }).is_empty());
    assert!(ctx.accepts_input());
    assert!(ctx.step(LoopEvent::StartSent).is_empty());
    ctx.step(LoopEvent::Input(InputMessage::new("q")));
    assert!(ctx.step(LoopEvent::InputClosed).is_empty());
    assert!(ctx.step(LoopEvent::Tick).is_empty());
    assert_eq!(ctx.controller().turn_count(), 1);
    assert!(matches!(ctx.phase(), LoopPhase::StartingTurn { .. }));
    ctx.step(LoopEvent::StartSent);
    assert!(ctx.step(LoopEvent::StartSent).is_empty());
    assert!(ctx.step(LoopEvent::InputClosed).is_empty());
    assert!(matches!(ctx.phase(), LoopPhase::ProcessingTurn));
}

#[test]
fn pause_within_a_turn_is_answered() {
    let mut ctx = running();
    ctx.step(LoopEvent::Input(InputMessage::new("q")));
    ctx.step(LoopEvent::StartSent);
    assert_eq!(ctx.awaits(), Awaited::Engine);
    let a = ctx.step(LoopEvent::Control(ControlCommand::Pause));
    assert_eq!(a.len(), 1);
    assert!(matches!(&a[0], LoopAction::Respond(Ok(()))));
    assert!(ctx.controller().is_paused());
    assert!(matches!(ctx.phase(), LoopPhase::ProcessingTurn));
    assert_eq!(ctx.awaits(), Awaited::Resume);
    ctx.step(LoopEvent::Control(ControlCommand::Resume));
    assert_eq!(ctx.awaits(), Awaited::Engine);
}

#[test]
fn into_controller_gives_the_state_back() {
    let mut ctx = running();
    ctx.step(LoopEvent::Input(InputMessage::new("q")));
    let c = ctx.into_controller();
    assert_eq!(c.turn_count(), 1);
}

#[test]
fn failed_start_ends_the_turn_without_a_submission() {
    let mut ctx = running();
    let a = ctx.step(LoopEvent::Input(InputMessage::new("q")));
    assert_eq!(a.len(), 1);
    assert!(matches!(&a[0], LoopAction::Emit(m) if m.turn_id == 1 && matches!(m.data, OutputData::Start)));
    let a = ctx.step(LoopEvent::SendFailed { message: "sending into a closed channel".to_string() });
    let text = "Channel send error: Failed to send message: sending into a closed channel";
    assert_eq!(a.len(), 1);
    assert!(matches!(&a[0], LoopAction::Emit(m) if m.turn_id == 1 && m.data_is_general(text)));
    assert_eq!(submissions(&a), 0);
    assert_eq!(ctx.controller().execution_state(), &ExecutionState::Error(text.to_string()));
    assert_eq!(ctx.controller().turn_count(), 1);
    assert!(ctx.accepts_input());
    assert!(ctx.step(LoopEvent::StartSent).is_empty());
}

#[test]
fn two_turns_with_a_failed_fetch_in_the_first() {
    let mut ctx = running();
    let actions = execution_loop(
        &mut ctx,
        vec![
            LoopEvent::Input(InputMessage::new("one")),
            LoopEvent::StartSent,
            LoopEvent::EngineFailed { message: "e".to_string() },
            LoopEvent::Input(InputMessage::new("two")),
            LoopEvent::StartSent,
            LoopEvent::Engine(EngineEvent::TaskComplete),
        ],
    );
    let out = emitted(&actions);
    assert_eq!(out.len(), 4);
    assert!(out[0].0 == 1 && matches!(out[0].1, OutputData::Start));
    assert!(out[1].0 == 1 && matches!(out[1].1, OutputData::Error { .. }));
    assert!(out[2].0 == 2 && matches!(out[2].1, OutputData::Start));
    assert!(out[3].0 == 2 && matches!(out[3].1, OutputData::Completed));
    assert_eq!(ctx.controller().turn_count(), 2);
    assert_eq!(ctx.controller().execution_state(), &ExecutionState::Error("e".to_string()));
    assert!(!ctx.has_exited());
}

#[test]
fn an_input_to_a_busy_loop_is_given_back() {
    let mut ctx = running();
    ctx.step(LoopEvent::Input(InputMessage::new("q")));
    let a = ctx.step(LoopEvent::Input(InputMessage::new("early")));
    assert_eq!(a.len(), 1);
    assert!(matches!(&a[0], LoopAction::GiveBack(m) if m.message == "early"));
    assert!(matches!(ctx.phase(), LoopPhase::StartingTurn { input } if input.message == "q"));
    ctx.step(LoopEvent::StartSent);
    let a = ctx.step(LoopEvent::Input(InputMessage::new("second")));
    assert_eq!(a.len(), 1);
    assert!(matches!(&a[0], LoopAction::GiveBack(m) if m.message == "second"));
    assert_eq!(ctx.controller().turn_count(), 1);
    let mut held = running();
    held.step(LoopEvent::Control(ControlCommand::Pause));
    held.step(LoopEvent::Input(InputMessage::new("first")));
    let a = held.step(LoopEvent::Input(InputMessage::new("third")));
    assert!(matches!(&a[0], LoopAction::GiveBack(m) if m.message == "third"));
    assert!(matches!(held.phase(), LoopPhase::HoldingInput { input } if input.message == "first"));
}

#[test]
fn a_stopped_session_still_answers() {
    let mut ctx = running();
    ctx.step(LoopEvent::Control(ControlCommand::Stop));
    assert!(ctx.has_exited());
    assert!(ctx.controller().is_active());
    assert_eq!(ctx.late_command(ControlCommand::Stop), Ok(()));
    assert_eq!(ctx.controller().state().execution_state, PublicExecutionState::Stopped);
    assert_eq!(ctx.late_command(ControlCommand::Pause), Ok(()));
    assert!(!ctx.controller().is_paused());
    assert_eq!(ctx.late_command(ControlCommand::Resume), Ok(()));
    assert_eq!(ctx.controller().state().execution_state, PublicExecutionState::Stopped);
    assert!(ctx.controller().should_stop());
}

#[test]
fn an_ended_session_is_not_active() {
    let mut ctx = running();
    ctx.step(LoopEvent::InputClosed);
    let expected = AgentError::Execution { message: "Agent controller is not active".to_string() };
    assert_eq!(ctx.late_command(ControlCommand::Stop), Err(expected.clone()));
    assert_eq!(ctx.late_command(ControlCommand::Pause), Err(expected));
    assert_eq!(ctx.controller().state().execution_state, PublicExecutionState::Idle);
    assert!(!ctx.controller().should_stop());
}

#[test]
fn a_late_command_to_a_running_loop_was_not_handed_over() {
    let mut ctx = running();
    assert_eq!(
        ctx.late_command(ControlCommand::Pause),
        Err(AgentError::ChannelSend { message: "Failed to send pause command".to_string() })
    );
    assert!(!ctx.controller().is_paused());
    assert_eq!(ctx.awaits(), Awaited::Anything);
}

#[test]
fn what_the_driver_waits_for() {
    let mut ctx = running();
    assert_eq!(ctx.awaits(), Awaited::Anything);
    ctx.step(LoopEvent::Control(ControlCommand::Pause));
    assert_eq!(ctx.awaits(), Awaited::Anything);
    ctx.step(LoopEvent::Input(InputMessage::new("q")));
    assert_eq!(ctx.awaits(), Awaited::Resume);
    ctx.step(LoopEvent::Control(ControlCommand::Resume));
    assert_eq!(ctx.awaits(), Awaited::Delivery);
    ctx.step(LoopEvent::StartSent);
    assert_eq!(ctx.awaits(), Awaited::Engine);
    ctx.step(LoopEvent::Engine(EngineEvent::TaskComplete));
    assert_eq!(ctx.awaits(), Awaited::Anything);
    ctx.step(LoopEvent::InputClosed);
    assert_eq!(ctx.awaits(), Awaited::Nothing);
}

#[test]
fn a_stop_in_a_restarted_session_stops_it() {
    let mut controller = AgentController::new();
    controller.stop().unwrap();
    controller.set_execution_state(ExecutionState::Running);
    let mut ctx = ExecutionContext::new(controller);
    let a = ctx.step(LoopEvent::Control(ControlCommand::Stop));
    assert_eq!(a.len(), 2);
    assert_eq!(ctx.controller().state().execution_state, PublicExecutionState::Stopped);
    assert!(ctx.controller().should_stop());
    assert!(!ctx.controller().is_paused());
    assert!(ctx.has_exited());
}

use agent_core::controller::{
    AgentController, AgentExecutionState, ControlCommand, ExecutionState, PublicExecutionState,
};
use agent_core::error::AgentError;

#[test]
fn new_controller_is_idle() {
    let c = AgentController::new();
    let s = c.state();
    assert_eq!(s.execution_state, PublicExecutionState::Idle);
    assert_eq!(s.turn_count, 0);
    assert!(!s.is_paused);
    assert!(!s.should_stop);
    assert!(c.is_active());
    assert!(c.can_continue());
    assert!(!c.wait_if_paused());
}

#[test]
fn stop_twice_succeeds_and_leaves_stopped() {
    let mut c = AgentController::new();
    assert_eq!(c.stop(), Ok(()));
    assert_eq!(c.state().execution_state, PublicExecutionState::Stopped);
    assert!(c.should_stop());
    assert_eq!(c.stop(), Ok(()));
    assert_eq!(c.state().execution_state, PublicExecutionState::Stopped);
    assert!(c.should_stop());
    assert!(!c.is_paused());
}

#[test]
fn pause_twice_succeeds_and_stays_paused() {
    let mut c = AgentController::new();
    assert_eq!(c.pause(), Ok(()));
    assert!(c.is_paused());
    assert_eq!(c.pause(), Ok(()));
    assert!(c.is_paused());
    assert_eq!(c.state().execution_state, PublicExecutionState::Paused);
    assert!(c.wait_if_paused());
    assert!(!c.can_continue());
}

#[test]
fn resume_clears_pause() {
    let mut c = AgentController::new();
    c.pause().unwrap();
    assert_eq!(c.resume(), Ok(()));
    assert!(!c.is_paused());
    assert_eq!(c.state().execution_state, PublicExecutionState::Running);
}

#[test]
fn stop_forces_pause_off_and_is_final() {
    let mut c = AgentController::new();
    c.pause().unwrap();
    c.stop().unwrap();
    assert!(!c.is_paused());
    assert!(c.should_stop());
    assert_eq!(c.pause(), Ok(()));
    assert!(!c.is_paused());
    assert_eq!(c.state().execution_state, PublicExecutionState::Stopped);
    assert_eq!(c.resume(), Ok(()));
    assert_eq!(c.state().execution_state, PublicExecutionState::Stopped);
    assert!(!c.wait_if_paused());
}

#[test]
fn commands_fail_once_the_loop_is_gone() {
    let mut c = AgentController::new();
    c.close();
    let expected = AgentError::Execution { message: "Agent controller is not active".to_string() };
    assert_eq!(c.pause(), Err(expected.clone()));
    assert_eq!(c.resume(), Err(expected.clone()));
    assert_eq!(c.stop(), Err(expected));
    assert!(!c.is_paused());
    assert!(!c.should_stop());
    assert_eq!(c.state().execution_state, PublicExecutionState::Idle);
}

#[test]
fn handle_control_command_answers_ok() {
    let mut c = AgentController::new();
    assert_eq!(c.handle_control_command(ControlCommand::Pause), Ok(()));
    assert_eq!(c.handle_control_command(ControlCommand::Resume), Ok(()));
    assert_eq!(c.handle_control_command(ControlCommand::Stop), Ok(()));
    assert_eq!(c.turn_count(), 0);
}

#[test]
fn turn_count_goes_up_by_one() {
    let mut c = AgentController::new();
    c.increment_turn_count();
    c.increment_turn_count();
    c.increment_turn_count();
    assert_eq!(c.turn_count(), 3);
    assert_eq!(c.state().turn_count, 3);
}

#[test]
fn set_error_records_reason() {
    let mut c = AgentController::new();
    c.set_error("engine down");
    assert_eq!(c.execution_state(), &ExecutionState::Error("engine down".to_string()));
    assert_eq!(c.state().execution_state, PublicExecutionState::Error);
    assert!(c.state().is_finished());
    assert!(!c.state().is_active());
}

#[test]
fn snapshot_predicates() {
    let snap = |s| AgentExecutionState {
        execution_state: s,
        turn_count: 0,
        is_paused: false,
        should_stop: false,
    };
    assert!(snap(PublicExecutionState::Running).is_active());
    assert!(snap(PublicExecutionState::Paused).is_active());
    assert!(!snap(PublicExecutionState::Idle).is_active());
    assert!(!snap(PublicExecutionState::Stopped).is_active());
    assert!(snap(PublicExecutionState::Stopped).is_finished());
    assert!(snap(PublicExecutionState::Error).is_finished());
    assert!(!snap(PublicExecutionState::Idle).is_finished());
    assert!(!snap(PublicExecutionState::Running).is_finished());
}

#[test]
fn public_state_from_and_text() {
    assert_eq!(PublicExecutionState::from(ExecutionState::Idle), PublicExecutionState::Idle);
    assert_eq!(
        PublicExecutionState::from(ExecutionState::Error("x".to_string())),
        PublicExecutionState::Error
    );
    assert_eq!(PublicExecutionState::Idle.to_text(), "Idle");
    assert_eq!(PublicExecutionState::Running.to_text(), "Running");
    assert_eq!(PublicExecutionState::Paused.to_text(), "Paused");
    assert_eq!(PublicExecutionState::Stopped.to_text(), "Stopped");
    assert_eq!(PublicExecutionState::Error.to_text(), "Error");
}

#[test]
fn transport_failures_name_the_command() {
    assert_eq!(
        ControlCommand::Pause.send_failure(),
        AgentError::ChannelSend { message: "Failed to send pause command".to_string() }
    );
    assert_eq!(
        ControlCommand::Resume.send_failure(),
        AgentError::ChannelSend { message: "Failed to send resume command".to_string() }
    );
    assert_eq!(
        ControlCommand::Stop.receive_failure(),
        AgentError::ChannelReceive { message: "Failed to receive stop response".to_string() }
    );
}

#[test]
fn duplicate_keeps_the_state() {
    let mut c = AgentController::new();
    c.pause().unwrap();
    c.increment_turn_count();
    let d = c.duplicate();
    assert_eq!(d.state(), c.state());
    assert_eq!(d.is_active(), c.is_active());
}

#[test]
fn a_stop_always_leaves_stopped() {
    let mut c = AgentController::new();
    c.stop().unwrap();
    c.set_execution_state(ExecutionState::Running);
    assert_eq!(c.handle_control_command(ControlCommand::Stop), Ok(()));
    assert_eq!(c.state().execution_state, PublicExecutionState::Stopped);
    assert!(c.should_stop());
    assert!(!c.is_paused());
    assert_eq!(c.turn_count(), 0);
    c.set_error("x");
    assert_eq!(c.stop(), Ok(()));
    assert_eq!(c.state().execution_state, PublicExecutionState::Stopped);
    assert_eq!(c.handle_control_command(ControlCommand::Pause), Ok(()));
    assert_eq!(c.handle_control_command(ControlCommand::Resume), Ok(()));
    assert_eq!(c.state().execution_state, PublicExecutionState::Stopped);
    assert!(!c.is_paused());
}

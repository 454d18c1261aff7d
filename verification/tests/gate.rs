use gateman::drive::{zero_step, EncoderSpin, MoveSession, ZeroProgress};
use gateman::error::Error;
use gateman::gate::{command_for_wait, Action, Command, GateState, Gateman, WaitOutcome};
use gateman::limit::LimitReading;

#[test]
fn new_actor_is_stopped_closed_without_sink() {
    let gm = Gateman::new(35);
    assert_eq!(gm.state(), GateState::Stopped(0));
    assert!(!gm.sink_connected());
}

#[test]
fn nop_changes_nothing() {
    let mut gm = Gateman::new(35);
    assert_eq!(gm.begin(&Command::Nop), Action::Idle);
    assert_eq!(gm.state(), GateState::Stopped(0));
    gm.finish(&Command::Nop, &Ok(()));
    assert_eq!(gm.state(), GateState::Stopped(0));
}

#[test]
fn connect_registers_the_sink() {
    let mut gm = Gateman::new(35);
    assert_eq!(gm.begin(&Command::Connect), Action::Idle);
    assert!(gm.sink_connected());
    assert_eq!(gm.state(), GateState::Stopped(0));
}

#[test]
fn open_targets_the_scaled_position() {
    let mut gm = Gateman::new(35);
    assert_eq!(gm.begin(&Command::Open(3)), Action::RunMove(105));
    assert_eq!(gm.state(), GateState::Moving(3));
    gm.finish(&Command::Open(3), &Ok(()));
    assert_eq!(gm.state(), GateState::Moving(3));
}

#[test]
fn close_targets_zero_and_stops_there() {
    let mut gm = Gateman::new(35);
    assert_eq!(gm.begin(&Command::Close), Action::RunMove(0));
    assert_eq!(gm.state(), GateState::Moving(0));
    gm.finish(&Command::Close, &Ok(()));
    assert_eq!(gm.state(), GateState::Stopped(0));
}

#[test]
fn zero_runs_the_routine_and_stops_at_zero() {
    let mut gm = Gateman::new(35);
    assert_eq!(gm.begin(&Command::Zero), Action::RunZero);
    assert_eq!(gm.state(), GateState::Zeroing);
    gm.finish(&Command::Zero, &Ok(()));
    assert_eq!(gm.state(), GateState::Stopped(0));
}

#[test]
fn failed_move_leaves_a_fault_and_motion_is_refused() {
    let mut gm = Gateman::new(35);
    gm.begin(&Command::Open(2));
    gm.finish(&Command::Open(2), &Err(Error::EncoderTxError));
    assert_eq!(gm.state(), GateState::Fault(Error::EncoderTxError));

    // motion commands are refused while faulted
    assert_eq!(gm.begin(&Command::Open(1)), Action::Idle);
    assert_eq!(gm.state(), GateState::Fault(Error::EncoderTxError));
    gm.finish(&Command::Open(1), &Ok(()));
    assert_eq!(gm.state(), GateState::Fault(Error::EncoderTxError));
    assert_eq!(gm.begin(&Command::Close), Action::Idle);
    gm.finish(&Command::Close, &Ok(()));
    assert_eq!(gm.state(), GateState::Fault(Error::EncoderTxError));

    // a successful zero recovers the actor
    assert_eq!(gm.begin(&Command::Zero), Action::RunZero);
    gm.finish(&Command::Zero, &Ok(()));
    assert_eq!(gm.state(), GateState::Stopped(0));
}

#[test]
fn wait_outcomes_dispatch_exactly_one_command() {
    assert_eq!(command_for_wait(WaitOutcome::Received(Command::Open(2))), Command::Open(2));
    assert_eq!(command_for_wait(WaitOutcome::Received(Command::Nop)), Command::Nop);
    assert_eq!(command_for_wait(WaitOutcome::TimedOut), Command::Close);
    assert_eq!(command_for_wait(WaitOutcome::Disconnected), Command::Close);
}

#[test]
fn command_just_before_expiry_is_not_doubled_with_a_close() {
    // a window that received a keep-alive dispatches it alone
    assert_eq!(command_for_wait(WaitOutcome::Received(Command::Nop)), Command::Nop);
}

#[test]
fn open_then_silence_scenario() {
    // Actor starts, zeroes itself, and is stopped closed.
    let mut gm = Gateman::new(35);
    assert_eq!(gm.begin(&Command::Zero), Action::RunZero);
    let reading = LimitReading { zero_active: true, nonzero_active: false };
    assert_eq!(zero_step(reading.state()), Ok(ZeroProgress::Complete));
    gm.finish(&Command::Zero, &Ok(()));
    assert_eq!(gm.state(), GateState::Stopped(0));

    // Open(3) targets 105 steps.
    let action = gm.begin(&Command::Open(3));
    assert_eq!(action, Action::RunMove(105));
    assert_eq!(gm.state(), GateState::Moving(3));

    // The driver runs the move against encoder feedback; the status
    // positions climb 1..=105 and the move terminates at 105.
    let mut session = MoveSession::new(0, 105).expect("a real move");
    let mut positions = Vec::new();
    loop {
        let done = session.on_event(EncoderSpin::Ccw);
        positions.push(session.position());
        if done {
            break;
        }
    }
    assert_eq!(positions.len(), 105);
    assert_eq!(positions.first(), Some(&1));
    assert_eq!(positions.last(), Some(&105));
    assert!(positions.windows(2).all(|w| w[1] == w[0] + 1));
    gm.finish(&Command::Open(3), &Ok(()));
    assert_eq!(gm.state(), GateState::Moving(3));

    // Five seconds of silence synthesize a Close, which drives to 0.
    let cmd = command_for_wait(WaitOutcome::TimedOut);
    assert_eq!(cmd, Command::Close);
    assert_eq!(gm.begin(&cmd), Action::RunMove(0));
    let mut session = MoveSession::new(105, 0).expect("a real move");
    let mut done = false;
    while !done {
        done = session.on_event(EncoderSpin::Cw);
    }
    assert_eq!(session.position(), 0);
    gm.finish(&cmd, &Ok(()));
    assert_eq!(gm.state(), GateState::Stopped(0));
}

#[test]
fn zero_with_both_sensors_inactive_faults_without_motion() {
    let mut gm = Gateman::new(35);
    assert_eq!(gm.begin(&Command::Zero), Action::RunZero);

    // both limit sensors read inactive: the first poll aborts
    let reading = LimitReading { zero_active: false, nonzero_active: false };
    let verdict = zero_step(reading.state());
    assert_eq!(verdict, Err(Error::ZeroLimitFault));

    gm.finish(&Command::Zero, &Err(Error::ZeroLimitFault));
    assert_eq!(gm.state(), GateState::Fault(Error::ZeroLimitFault));
}

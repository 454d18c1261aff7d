//! The supervising actor's state machine and fail-safe policy.
//!
//! The actor is the only component that invokes the motor driver.  It
//! owns the logical gate state, processes exactly one command at a
//! time, and synthesizes a `Close` when no command arrives within the
//! fail-safe window.  The channels, the timer and the hardware calls run
//! outside the library; the decisions they carry out are below: which
//! action a command demands in the current state, and which state the
//! action's outcome leads to.
//!
//! A failed move or zeroing no longer tears the actor down: it leaves
//! a `Fault` state behind that rejects motion commands until a
//! successful `Zero` re-establishes the reference position.

use vstd::prelude::*;

use crate::error::Error;

verus! {

/// The logical gate state.  Exactly one variant is active at a time, and
/// transitions happen only inside the actor's single-threaded command
/// loop.
#[derive(Clone, Copy, Debug, PartialEq, Eq, Structural)]
pub enum GateState {
    /// At rest at the given open amount; `Stopped(0)` is the closed gate.
    Stopped(u8),
    /// A move toward the given open amount is in flight.
    Moving(u8),
    /// The zeroing routine is in flight.
    Zeroing,
    /// A move or zeroing failed; motion is refused until a `Zero` succeeds.
    Fault(Error),
}

/// A command consumed by the actor, one at a time.
#[derive(Clone, Copy, Debug, PartialEq, Eq, Structural)]
pub enum Command {
    /// Drive to the closed position.
    Close,
    /// Drive to the given open amount.
    Open(u8),
    /// Register a status sink for subsequent moves.
    Connect,
    /// Re-establish the zero reference at the limit switch.
    Zero,
    /// Keep-alive: resets the fail-safe window without motion.
    Nop,
}

/// What the actor must carry out for one command.
#[derive(Clone, Copy, Debug, PartialEq, Eq, Structural)]
pub enum Action {
    /// Nothing: the command needs no motion, or motion was refused.
    Idle,
    /// Enable the driver, run the zeroing routine, disable the driver.
    RunZero,
    /// Enable the driver, run a closed-loop move to the given step
    /// position, disable the driver.
    RunMove(isize),
}

/// What one bounded wait on the actor's inbox produced.
#[derive(Clone, Copy, Debug, PartialEq, Eq, Structural)]
pub enum WaitOutcome {
    /// A command arrived within the window.
    Received(Command),
    /// The window elapsed without a command.
    TimedOut,
    /// The inbox's peer has gone away.
    Disconnected,
}

/// The command the actor dispatches for one wait outcome: the received
/// command itself, or a synthesized `Close` when the window elapsed or
/// the peer disconnected — the fail-safe that drives an unattended gate
/// closed.
pub open spec fn spec_dispatch(w: WaitOutcome) -> Command {
    match w {
        WaitOutcome::Received(c) => c,
        WaitOutcome::TimedOut => Command::Close,
        WaitOutcome::Disconnected => Command::Close,
    }
}

/// Decide the dispatched command for one wait outcome.
pub fn command_for_wait(w: WaitOutcome) -> (r: Command)
    ensures
        r == spec_dispatch(w),
{
    match w {
        WaitOutcome::Received(c) => c,
        WaitOutcome::TimedOut => Command::Close,
        WaitOutcome::Disconnected => Command::Close,
    }
}

/// The commands dispatched over a run of wait outcomes.
pub open spec fn dispatches(ws: Seq<WaitOutcome>) -> Seq<Command> {
    ws.map_values(|w: WaitOutcome| spec_dispatch(w))
}

/// Law: every wait window dispatches exactly one command; a window that
/// timed out or found the peer gone dispatches `Close`, and a window
/// that received a command dispatches that command alone — no fail-safe
/// `Close` is duplicated into it.
pub proof fn lemma_one_dispatch_per_window(ws: Seq<WaitOutcome>)
    ensures
        dispatches(ws).len() == ws.len(),
        forall|i: int|
            0 <= i < ws.len() ==> #[trigger] dispatches(ws)[i] == spec_dispatch(ws[i]),
        forall|i: int|
            0 <= i < ws.len() && !(ws[i] matches WaitOutcome::Received(_))
                ==> #[trigger] dispatches(ws)[i] == Command::Close,
        forall|i: int|
            0 <= i < ws.len() && ws[i] is Received
                ==> #[trigger] dispatches(ws)[i] == ws[i]->0,
{
}

/// The verified core of the supervising actor: its logical state, the status
/// sink registration, and the configured open-amount-to-steps
/// multiplier.  The actor around it owns the driver and the limit
/// switch and performs the actions this core decides.
pub struct Gateman {
    state: GateState,
    sink_connected: bool,
    steps_per_unit: u16,
}

impl Gateman {
    /// The logical gate state.
    pub closed spec fn spec_state(self) -> GateState {
        self.state
    }

    /// Whether a status sink has been registered.
    pub closed spec fn spec_sink_connected(self) -> bool {
        self.sink_connected
    }

    /// The configured steps per open-amount unit.
    pub closed spec fn spec_steps_per_unit(self) -> int {
        self.steps_per_unit as int
    }

    /// A fresh actor core: stopped at the closed position, no sink.
    ///
    /// `steps_per_unit` is the external configuration value that maps a
    /// logical open amount to a step count.
    pub fn new(steps_per_unit: u16) -> (r: Gateman)
        ensures
            r.spec_state() == GateState::Stopped(0u8),
            !r.spec_sink_connected(),
            r.spec_steps_per_unit() == steps_per_unit as int,
    {
        Gateman { state: GateState::Stopped(0), sink_connected: false, steps_per_unit }
    }

    /// The logical gate state.
    pub fn state(&self) -> (r: GateState)
        ensures
            r == self.spec_state(),
    {
        self.state
    }

    /// Whether a status sink has been registered.
    pub fn sink_connected(&self) -> (r: bool)
        ensures
            r == self.spec_sink_connected(),
    {
        self.sink_connected
    }

    /// Take up one command: move the logical state to its in-flight
    /// shape and decide the action the actor must carry out.
    ///
    /// `Zero` is always taken up, and is the only motion a faulted gate
    /// accepts: it is the recovery path.  `Close` and `Open` are refused
    /// in a `Fault` state.  `Open(n)` targets `n` times the configured
    /// multiplier.  `Nop` and `Connect` never cause motion.
    pub fn begin(&mut self, cmd: &Command) -> (r: Action)
        ensures
            final(self).spec_steps_per_unit() == old(self).spec_steps_per_unit(),
            cmd is Connect ==> final(self).spec_sink_connected(),
            !(cmd is Connect)
                ==> final(self).spec_sink_connected() == old(self).spec_sink_connected(),
            cmd is Nop
                ==> r == Action::Idle && final(self).spec_state() == old(self).spec_state(),
            cmd is Connect
                ==> r == Action::Idle && final(self).spec_state() == old(self).spec_state(),
            cmd is Zero
                ==> r == Action::RunZero && final(self).spec_state() == GateState::Zeroing,
            cmd is Close && !(old(self).spec_state() is Fault)
                ==> r == Action::RunMove(0) && final(self).spec_state() == GateState::Moving(0u8),
            cmd is Close && old(self).spec_state() is Fault
                ==> r == Action::Idle && final(self).spec_state() == old(self).spec_state(),
            cmd matches Command::Open(n) ==> ({
                &&& !(old(self).spec_state() is Fault)
                    ==> r == Action::RunMove((*n as int * old(self).spec_steps_per_unit()) as isize)
                        && final(self).spec_state() == GateState::Moving(*n)
                &&& old(self).spec_state() is Fault
                    ==> r == Action::Idle && final(self).spec_state() == old(self).spec_state()
            }),
    {
        match cmd {
            Command::Nop => Action::Idle,
            Command::Connect => {
                self.sink_connected = true;
                Action::Idle
            },
            Command::Zero => {
                self.state = GateState::Zeroing;
                Action::RunZero
            },
            Command::Close => {
                match self.state {
                    GateState::Fault(_) => Action::Idle,
                    _ => {
                        self.state = GateState::Moving(0);
                        Action::RunMove(0)
                    },
                }
            },
            Command::Open(n) => {
                match self.state {
                    GateState::Fault(_) => Action::Idle,
                    _ => {
                        self.state = GateState::Moving(*n);
                        proof {
                            assert(0 <= (*n as int) * (self.steps_per_unit as int)
                                <= 255 * 65535) by (nonlinear_arith)
                                requires
                                    0 <= *n as int <= 255,
                                    0 <= self.steps_per_unit as int <= 65535,
                            ;
                        }
                        let target: isize = (*n as isize) * (self.steps_per_unit as isize);
                        Action::RunMove(target)
                    },
                }
            },
        }
    }

    /// Settle the logical state once the command's action has run.
    ///
    /// A successful `Zero` or `Close` leaves the state `Stopped(0)`; a
    /// successful `Open(n)` keeps `Moving(n)` — the next command reads
    /// the position from the driver.  Any failed motion leaves `Fault`
    /// behind with the error.  A command whose motion was refused in
    /// a `Fault` state, and the motionless commands, change nothing.
    pub fn finish(&mut self, cmd: &Command, outcome: &Result<(), Error>)
        ensures
            final(self).spec_steps_per_unit() == old(self).spec_steps_per_unit(),
            final(self).spec_sink_connected() == old(self).spec_sink_connected(),
            cmd is Nop || cmd is Connect ==> final(self).spec_state() == old(self).spec_state(),
            (cmd is Close || cmd matches Command::Open(_)) && old(self).spec_state() is Fault
                ==> final(self).spec_state() == old(self).spec_state(),
            cmd is Zero && outcome is Ok ==> final(self).spec_state() == GateState::Stopped(0u8),
            cmd is Close && !(old(self).spec_state() is Fault) && outcome is Ok
                ==> final(self).spec_state() == GateState::Stopped(0u8),
            cmd matches Command::Open(_) && !(old(self).spec_state() is Fault) && outcome is Ok
                ==> final(self).spec_state() == old(self).spec_state(),
            cmd is Zero && outcome is Err
                ==> final(self).spec_state() == GateState::Fault(outcome->Err_0),
            cmd is Close && !(old(self).spec_state() is Fault) && outcome is Err
                ==> final(self).spec_state() == GateState::Fault(outcome->Err_0),
            cmd matches Command::Open(_) && !(old(self).spec_state() is Fault) && outcome is Err
                ==> final(self).spec_state() == GateState::Fault(outcome->Err_0),
    {
        match cmd {
            Command::Nop => {},
            Command::Connect => {},
            Command::Zero => {
                match outcome {
                    Ok(_) => self.state = GateState::Stopped(0),
                    Err(e) => self.state = GateState::Fault(*e),
                }
            },
            Command::Close => {
                match self.state {
                    GateState::Fault(_) => {},
                    _ => {
                        match outcome {
                            Ok(_) => self.state = GateState::Stopped(0),
                            Err(e) => self.state = GateState::Fault(*e),
                        }
                    },
                }
            },
            Command::Open(_) => {
                match self.state {
                    GateState::Fault(_) => {},
                    _ => {
                        match outcome {
                            Ok(_) => {},
                            Err(e) => self.state = GateState::Fault(*e),
                        }
                    },
                }
            },
        }
    }
}

} // verus!

//! Closed-loop move arithmetic for the motor driver.
//!
//! The driver translates a target position into a direction and a step
//! count, then consumes encoder events until the direction-aware
//! termination test is met.  Everything here is pure decision logic; the
//! pins, the pulse generator and the event channel live outside the
//! library.

use vstd::prelude::*;

use crate::error::Error;
use crate::limit;

verus! {

/// Level of a digital line.
#[derive(Clone, Copy, Debug, PartialEq, Eq, Structural)]
pub enum PinLevel {
    Low,
    High,
}

/// Sense of travel: `Open` increases the position, `Close` decreases it.
#[derive(Clone, Copy, Debug, PartialEq, Eq, Structural)]
pub enum Direction {
    Open,
    Close,
}

/// Raw rotation sense reported by the quadrature decoder.
#[derive(Clone, Copy, Debug, PartialEq, Eq, Structural)]
pub enum EncoderSpin {
    Cw,
    Ccw,
}

impl Direction {
    /// Level driven onto the direction output for this direction.  The
    /// mapping is the fixed wiring polarity of the driver stage.
    pub open spec fn spec_level(self) -> PinLevel {
        match self {
            Direction::Open => PinLevel::Low,
            Direction::Close => PinLevel::High,
        }
    }

    /// The level the direction output must carry for this direction.
    pub fn level(self) -> (r: PinLevel)
        ensures
            r == self.spec_level(),
    {
        match self {
            Direction::Open => PinLevel::Low,
            Direction::Close => PinLevel::High,
        }
    }

    /// Direction encoded by a level on the direction line (inverse of the
    /// wiring polarity above).
    pub fn from_level(l: PinLevel) -> (r: Direction)
        ensures
            r.spec_level() == l,
    {
        match l {
            PinLevel::Low => Direction::Open,
            PinLevel::High => Direction::Close,
        }
    }

    /// The direction's name, for status reporting.
    pub fn label(self) -> (r: &'static str)
        ensures
            self is Open ==> r@ == "Open"@,
            self is Close ==> r@ == "Close"@,
    {
        match self {
            Direction::Open => "Open",
            Direction::Close => "Close",
        }
    }
}

impl EncoderSpin {
    /// Rotation sense signalled by the data line's level at a validated
    /// clock edge.  The mapping is the encoder's fixed wiring polarity.
    pub open spec fn spec_from_level(l: PinLevel) -> EncoderSpin {
        match l {
            PinLevel::Low => EncoderSpin::Cw,
            PinLevel::High => EncoderSpin::Ccw,
        }
    }

    /// Rotation sense read off the data line.
    pub fn from_level(l: PinLevel) -> (r: EncoderSpin)
        ensures
            r == EncoderSpin::spec_from_level(l),
    {
        match l {
            PinLevel::Low => EncoderSpin::Cw,
            PinLevel::High => EncoderSpin::Ccw,
        }
    }

    /// Position change carried by one step event of this sense.
    pub open spec fn delta(self) -> int {
        match self {
            EncoderSpin::Ccw => 1,
            EncoderSpin::Cw => -1,
        }
    }
}

/// The direction a move from `current` to `target` must take.
pub open spec fn direction_of(current: int, target: int) -> Direction {
    if current < target {
        Direction::Open
    } else {
        Direction::Close
    }
}

/// Magnitude of the distance between two positions.
pub open spec fn distance(current: int, target: int) -> int {
    if current < target {
        target - current
    } else {
        current - target
    }
}

/// Step count and direction for a move from `current` to `target`.
///
/// The count is the magnitude of the gap; the direction is `Open`
/// exactly when the gap is upward.
pub fn steps_in_right_direction(current: isize, target: isize) -> (r: (isize, Direction))
    requires
        target - current <= isize::MAX,
        current - target <= isize::MAX,
    ensures
        r.0 == distance(current as int, target as int),
        r.1 == direction_of(current as int, target as int),
{
    if current < target {
        (target - current, Direction::Open)
    } else {
        (current - target, Direction::Close)
    }
}

/// Direction-aware termination test for a move.
pub open spec fn target_met(current: int, target: int, dir: Direction) -> bool {
    match dir {
        Direction::Open => current >= target,
        Direction::Close => current <= target,
    }
}

/// Whether a move in direction `dir` toward `target` is finished at
/// `current`.  The comparison tolerates overshoot: any position at or
/// beyond the target counts as met.
pub fn target_is_met(current: isize, target: isize, dir: Direction) -> (r: bool)
    ensures
        r == target_met(current as int, target as int, dir),
{
    match dir {
        Direction::Open => current >= target,
        Direction::Close => current <= target,
    }
}

/// One closed-loop move in progress.
///
/// The session fixes the target and the direction when it is created and
/// then consumes encoder events one at a time: each event adjusts the
/// running position by its rotation sense and re-evaluates the
/// direction-aware termination test.  The pulse generator, the decoder
/// and the event channel live outside the library; they feed the session
/// and obey its verdicts.
pub struct MoveSession {
    target: isize,
    dir: Direction,
    current: isize,
    done: bool,
}

impl MoveSession {
    /// The position the move drives toward.
    pub closed spec fn spec_target(self) -> int {
        self.target as int
    }

    /// The direction the move was planned with.
    pub closed spec fn spec_dir(self) -> Direction {
        self.dir
    }

    /// The running position, as of the last consumed event.
    pub closed spec fn spec_current(self) -> int {
        self.current as int
    }

    /// Whether the termination test has been met.
    pub closed spec fn spec_done(self) -> bool {
        self.done
    }

    /// The session's invariant: the stored verdict agrees with the
    /// direction-aware termination test on the stored position.
    pub open spec fn wf(self) -> bool {
        self.spec_done() == target_met(self.spec_current(), self.spec_target(), self.spec_dir())
    }

    /// Plan a move from `current` to `target`.
    ///
    /// A move to the position already held is an idempotent
    /// no-op: no session is created, so nothing downstream writes a pin
    /// or starts a decoder.
    pub fn new(current: isize, target: isize) -> (r: Option<MoveSession>)
        ensures
            (r is Some) <==> current != target,
            r matches Some(s) ==> {
                &&& s.wf()
                &&& !s.spec_done()
                &&& s.spec_target() == target as int
                &&& s.spec_current() == current as int
                &&& s.spec_dir() == direction_of(current as int, target as int)
            },
    {
        if current == target {
            None
        } else {
            let dir = if current < target {
                Direction::Open
            } else {
                Direction::Close
            };
            Some(MoveSession { target, dir, current, done: false })
        }
    }

    /// Consume one encoder event: adjust the running position by the
    /// event's rotation sense and test termination.  Returns the verdict;
    /// once it is true the caller must stop the pulse generator and
    /// cancel the decoder.
    pub fn on_event(&mut self, spin: EncoderSpin) -> (done: bool)
        requires
            !old(self).spec_done(),
            spin is Ccw ==> old(self).spec_current() < isize::MAX,
            spin is Cw ==> old(self).spec_current() > isize::MIN,
        ensures
            final(self).wf(),
            final(self).spec_target() == old(self).spec_target(),
            final(self).spec_dir() == old(self).spec_dir(),
            final(self).spec_current() == old(self).spec_current() + spin.delta(),
            done == final(self).spec_done(),
            done == target_met(
                old(self).spec_current() + spin.delta(),
                old(self).spec_target(),
                old(self).spec_dir(),
            ),
    {
        match spin {
            EncoderSpin::Ccw => self.current = self.current + 1,
            EncoderSpin::Cw => self.current = self.current - 1,
        }
        self.done = target_is_met(self.current, self.target, self.dir);
        self.done
    }

    /// The running position.
    pub fn position(&self) -> (r: isize)
        ensures
            r as int == self.spec_current(),
    {
        self.current
    }

    /// The planned direction.
    pub fn direction(&self) -> (r: Direction)
        ensures
            r == self.spec_dir(),
    {
        self.dir
    }

    /// The target position.
    pub fn target(&self) -> (r: isize)
        ensures
            r as int == self.spec_target(),
    {
        self.target
    }

    /// Whether the move has terminated.
    pub fn is_done(&self) -> (r: bool)
        ensures
            r == self.spec_done(),
    {
        self.done
    }
}

/// Verdict of one poll of the limit switch while zeroing.
#[derive(Clone, Copy, Debug, PartialEq, Eq, Structural)]
pub enum ZeroProgress {
    /// The zero sensor is active: the reference position is reached.
    Complete,
    /// The sensor is not yet reached: keep driving toward it.
    KeepDriving,
}

/// One step of the zeroing routine.
///
/// The routine drives in a fixed direction and polls the limit switch;
/// `Zero` completes it, `Nonzero` keeps it driving, and a fault reading
/// aborts it with the fault.
pub fn zero_step(reading: Result<limit::State, Error>) -> (r: Result<ZeroProgress, Error>)
    ensures
        r == (match reading {
            Result::Ok(limit::State::Zero) => Result::<ZeroProgress, Error>::Ok(ZeroProgress::Complete),
            Result::Ok(limit::State::Nonzero) => Result::<ZeroProgress, Error>::Ok(ZeroProgress::KeepDriving),
            Result::Err(e) => Result::<ZeroProgress, Error>::Err(e),
        }),
{
    match reading {
        Ok(limit::State::Zero) => Ok(ZeroProgress::Complete),
        Ok(limit::State::Nonzero) => Ok(ZeroProgress::KeepDriving),
        Err(e) => Err(e),
    }
}

} // verus!

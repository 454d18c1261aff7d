//! Core logic of a stepper-motor gate controller.
//!
//! The library holds everything that can be stated and proved about the
//! controller: the closed-loop move arithmetic, the quadrature debounce
//! state machine, the limit-switch fault model, the supervising actor's
//! state machine, and the textual command protocol.  The hardware and
//! transport around it (GPIO, PWM, channels, sockets) live outside the
//! library and hand it plain values.

pub mod api;
pub mod cli;
pub mod drive;
pub mod encoder;
pub mod error;
pub mod gate;
pub mod limit;

pub use error::Error;

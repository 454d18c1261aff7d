//! Error kinds of the controller.
//!
//! Construction-time hardware errors (`GpioError`, `PwmError`) are fatal:
//! the driver cannot be built.  The remaining kinds are runtime errors of
//! a move or of the zeroing routine.  The hardware layer around the
//! library attaches its own detail to these kinds; the library keeps the
//! bare classification that its state machines decide on.

use vstd::prelude::*;

verus! {

/// An error that can occur in this crate.
#[derive(Clone, Copy, Debug, PartialEq, Eq, Structural)]
pub enum Error {
    /// A GPIO pin could not be acquired or configured.
    GpioError,
    /// The pulse generator could not be configured or switched.
    PwmError,
    /// The decoder could not deliver a step event: its channel's peer is gone.
    EncoderTxError,
    /// The decoder's execution context failed to join cleanly.
    EncoderThreadError,
    /// The move-consuming loop failed to join cleanly.
    DriverThreadError,
    /// Both or neither limit sensor was active while zeroing.
    ZeroLimitFault,
}

impl Error {
    /// A short description of the error kind.
    pub fn describe(&self) -> (r: &'static str)
        ensures
            self is GpioError ==> r@ == "GPIO pin error"@,
            self is PwmError ==> r@ == "pulse generator error"@,
            self is EncoderTxError ==> r@ == "failed to send encoder reading"@,
            self is EncoderThreadError ==> r@ == "encoder thread error"@,
            self is DriverThreadError ==> r@ == "driver thread error"@,
            self is ZeroLimitFault ==> r@ == "zeroing limit switch fault"@,
    {
        match self {
            Error::GpioError => "GPIO pin error",
            Error::PwmError => "pulse generator error",
            Error::EncoderTxError => "failed to send encoder reading",
            Error::EncoderThreadError => "encoder thread error",
            Error::DriverThreadError => "driver thread error",
            Error::ZeroLimitFault => "zeroing limit switch fault",
        }
    }
}

} // verus!

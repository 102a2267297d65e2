//! Why the engine could not open the terminal.

use libc::c_int;
use vstd::prelude::*;

verus! {

/// Status of an engine that does not know the terminal's type.
pub const EUNSUPPORTED_TERMINAL: c_int = -1;

/// Status of an engine that could not open the terminal device.
pub const EFAILED_TO_OPEN_TTY: c_int = -2;

/// Status of an engine that could not set up the pipe through which it
/// learns of a change of the window's size.
pub const EPIPE_TRAP_ERROR: c_int = -3;

/// The reason for which a session could not be opened.
#[derive(PartialEq, Eq, Structural, Clone, Copy, Debug)]
pub enum Failure {
    /// The engine gave a negative status that has no name.
    Unknown,
    UnsupportedTerminal,
    FailedToOpenTty,
    PipeTrapError,
}

impl Failure {
    /// The failure that a status of the engine's initialization stands
    /// for: none where the status is not negative, the named failure for
    /// each of the three named statuses, and `Unknown` for every other
    /// negative status.
    pub open spec fn spec_from_status(status: c_int) -> Option<Failure> {
        if status >= 0 {
            None
        } else if status == EUNSUPPORTED_TERMINAL {
            Some(Failure::UnsupportedTerminal)
        } else if status == EFAILED_TO_OPEN_TTY {
            Some(Failure::FailedToOpenTty)
        } else if status == EPIPE_TRAP_ERROR {
            Some(Failure::PipeTrapError)
        } else {
            Some(Failure::Unknown)
        }
    }

    /// Reads the status that the engine's initialization returned. `None`
    /// means that the engine is up.
    pub fn from_status(status: c_int) -> (r: Option<Failure>)
        ensures
            r == Failure::spec_from_status(status),
            r is None <==> status >= 0,
    {
        if status >= 0 {
            None
        } else {
            Some(
                match status {
                    EUNSUPPORTED_TERMINAL => Failure::UnsupportedTerminal,
                    EFAILED_TO_OPEN_TTY => Failure::FailedToOpenTty,
                    EPIPE_TRAP_ERROR => Failure::PipeTrapError,
                    _ => Failure::Unknown,
                },
            )
        }
    }
}

} // verus!

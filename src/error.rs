use vstd::prelude::*;

verus! {

/// Why a password could not be generated or checked.
#[derive(Clone, Copy, Debug, PartialEq, Eq, Structural)]
pub enum ThotpError {
    /// The keyed hash could not be computed.
    HashError,
    /// The system clock could not be read, or stands before the Unix epoch.
    ClockError,
    /// A parameter makes the computation meaningless: zero digits, or a zero time step.
    ConfigError,
}

} // verus!

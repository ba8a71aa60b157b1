//! The failures that commands report to their caller.

use vstd::prelude::*;
use crate::platform::{OsFamily, PlatformError, PlatformOp};

verus! {

/// Why a command was not carried out.
#[derive(Debug, Clone, Copy, PartialEq, Eq, Structural)]
pub enum CoreError {
    /// No instance or profile has the given identifier, or the executable to
    /// launch does not exist.
    NotFound,
    /// The operation is not allowed in the current status.
    InvalidState,
    /// A call into the operating system failed.
    Platform(PlatformError),
    /// The operation does not exist on this operating system.
    Unsupported(PlatformOp, OsFamily),
    /// An earlier panic left shared state unusable.
    LockPoisoned,
}

impl CoreError {
    /// The command failure that stands for a failed platform operation.
    pub open spec fn of_platform(error: PlatformError) -> CoreError {
        match error {
            PlatformError::Unsupported(op, family) => CoreError::Unsupported(op, family),
            _ => CoreError::Platform(error),
        }
    }

    /// Turns the failure of a platform operation into a command failure.
    pub fn from_platform(error: PlatformError) -> (r: CoreError)
        ensures
            r == Self::of_platform(error),
    {
        match error {
            PlatformError::Unsupported(op, family) => CoreError::Unsupported(op, family),
            _ => CoreError::Platform(error),
        }
    }

    /// A short description of the failure.
    pub fn message(&self) -> (r: &'static str)
        ensures
            r@ == match self {
                CoreError::NotFound => "not found"@,
                CoreError::InvalidState => "operation not allowed in the current state"@,
                CoreError::Platform(_) => "operating system call failed"@,
                CoreError::Unsupported(_, _) => "operation not supported on this platform"@,
                CoreError::LockPoisoned => "lock poisoned"@,
            },
    {
        match self {
            CoreError::NotFound => "not found",
            CoreError::InvalidState => "operation not allowed in the current state",
            CoreError::Platform(_) => "operating system call failed",
            CoreError::Unsupported(_, _) => "operation not supported on this platform",
            CoreError::LockPoisoned => "lock poisoned",
        }
    }
}

} // verus!

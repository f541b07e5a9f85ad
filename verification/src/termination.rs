//! The ways the program ends, and the status it ends with.

use vstd::prelude::*;
use crate::supervisor::Failure;

verus! {

/// The status of an orderly end.
pub const EXIT_OK: i32 = 0;

/// The status after a usage error or a failure of the watch.
pub const EXIT_ERROR: i32 = 1;

/// The status after the operating system refused a spawn, a signal or a wait.
pub const EXIT_ABORT: i32 = 101;

/// Why the program ends.
#[derive(Clone, Copy, Debug, PartialEq, Eq, Structural)]
pub enum Termination {
    /// The usage was asked for and shown.
    Help,
    /// The version was asked for and shown.
    Version,
    /// No command was given.
    Usage,
    /// The source of change events failed.
    WatchFailure,
    /// The user interrupted the program.
    Interrupted,
    /// The supervisor halted.
    SupervisorFailure(Failure),
}

impl Termination {
    /// The exit status: zero after help, version and interrupt, one after a
    /// usage error or a watch failure, and that of an abnormal end after a
    /// supervisor failure.
    pub open spec fn status(self) -> i32 {
        match self {
            Termination::Help | Termination::Version | Termination::Interrupted => EXIT_OK,
            Termination::Usage | Termination::WatchFailure => EXIT_ERROR,
            Termination::SupervisorFailure(_) => EXIT_ABORT,
        }
    }

    /// Whether the program ends because something went wrong.
    pub open spec fn is_failure(self) -> bool {
        self is Usage || self is WatchFailure || self is SupervisorFailure
    }

    pub fn exit_code(&self) -> (code: i32)
        ensures
            code == self.status(),
            code != 0 <==> self.is_failure(),
    {
        match self {
            Termination::Help | Termination::Version | Termination::Interrupted => EXIT_OK,
            Termination::Usage | Termination::WatchFailure => EXIT_ERROR,
            Termination::SupervisorFailure(_) => EXIT_ABORT,
        }
    }
}

} // verus!

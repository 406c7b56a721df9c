use vstd::prelude::*;

verus! {

/// Errors of the library's own logic.
#[derive(PartialEq, Eq, Clone, Debug)]
pub enum Error {
    /// The setup of a process failed.
    ProcessError(ProcessErrorKind),
    /// An error with a message.
    UnError(String),
    /// A landlock profile could not be read.
    LandLockError(String),
    /// An unexpected value.
    Unexpected(String),
}

/// Why the setup of a process failed.
#[derive(PartialEq, Eq, Clone, Debug)]
pub enum ProcessErrorKind {
    /// A thread that reads the output of the process panicked.
    StdThreadPanic,
    /// The UID/GID mapping of the user namespace could not be configured.
    SetupUGidmapFailed(String),
    /// The new network namespace could not be configured.
    SetupNetworkFailed(String),
    /// The setup of a closure failed.
    SetupClosuresFailed(String),
    /// The exit status of the child process is gone.
    ChildExitStatusGone,
}

/// Results of the library's own logic.
pub type Result<T> = core::result::Result<T, Error>;

} // verus!

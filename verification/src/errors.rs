use vstd::prelude::*;

verus! {

/// No usable runtime path could be determined: the directory holding the
/// application's own executable could not be read. Fatal at startup.
#[derive(Clone, Copy, PartialEq, Eq, Structural, Debug)]
pub enum ResolutionError {
    InstallRootUnavailable,
}

/// The operating system refused to create the child process. The detail
/// carries the OS diagnostic. Fatal at startup.
pub struct SpawnError {
    pub detail: String,
}

/// Termination did not go through cleanly. Never fatal: shutdown proceeds
/// regardless, after logging.
pub enum TerminateError {
    /// A termination request had already been honoured.
    AlreadyTerminated,
    /// The guard protecting the shared process handle could not be acquired.
    GuardUnavailable,
    /// The OS refused the kill request; the detail carries its diagnostic.
    KillRefused(String),
}

/// The whole error taxonomy, classified by the phase it belongs to.
pub enum AppError {
    Resolution(ResolutionError),
    Spawn(SpawnError),
    Terminate(TerminateError),
}

impl AppError {
    /// Startup errors abort the application; a termination failure never
    /// does, since the host's own exit must not be blocked by backend
    /// cleanup.
    pub fn is_fatal(&self) -> (r: bool)
        ensures
            r == !(self is Terminate),
    {
        match self {
            AppError::Terminate(_) => false,
            AppError::Resolution(_) => true,
            AppError::Spawn(_) => true,
        }
    }
}

} // verus!

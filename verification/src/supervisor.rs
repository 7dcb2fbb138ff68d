use vstd::prelude::*;
use vstd::string::StringExecFns;

use crate::errors::TerminateError;
use crate::locator::RuntimeLocation;

verus! {

/// Everything the host needs to create the child process: the resolved
/// program, the fixed entry-point arguments selecting the backend's main
/// module, the auxiliary environment, and the demand that no console
/// window be shown for it.
pub struct SpawnPlan {
    pub program: String,
    pub args: Vec<String>,
    pub env: Vec<(String, String)>,
    pub suppress_console: bool,
}

/// Builds the launch plan for a resolved runtime. The location is
/// consumed: it is computed once at startup and not kept afterwards.
/// Suppressing the console window is part of the contract, not an
/// optimization: without it every launch flashes a console on the host.
pub fn spawn_plan(location: RuntimeLocation) -> (p: SpawnPlan)
    ensures
        p.program == location.executable_path,
        p.args@.len() == 2,
        p.args@[0]@ == "-m"@,
        p.args@[1]@ == "handyapi"@,
        p.env == location.aux_env,
        p.suppress_console,
{
    let mut args: Vec<String> = Vec::new();
    args.push(String::from_str("-m"));
    args.push(String::from_str("handyapi"));
    SpawnPlan {
        program: location.executable_path,
        args,
        env: location.aux_env,
        suppress_console: true,
    }
}

/// The supervised child's lifecycle: it runs until the one termination
/// request is honoured, and no transition leaves `Terminated`.
#[derive(Clone, Copy, PartialEq, Eq, Structural, Debug)]
pub enum ProcessState {
    Running,
    Terminated,
}

/// What a termination request reports: the kill must now be issued, or
/// the process had already been terminated (a warning, not a failure).
#[derive(Clone, Copy, PartialEq, Eq, Structural, Debug)]
pub enum TerminateOutcome {
    Issued,
    AlreadyTerminated,
}

/// One step of the termination state machine: from `Running` the request
/// is issued and the state becomes `Terminated`; from `Terminated` the
/// state is unchanged and the request reports the idempotent outcome.
pub open spec fn terminate_step(s: ProcessState) -> (ProcessState, TerminateOutcome) {
    match s {
        ProcessState::Running => (ProcessState::Terminated, TerminateOutcome::Issued),
        ProcessState::Terminated => (ProcessState::Terminated, TerminateOutcome::AlreadyTerminated),
    }
}

/// The model of the one child process created per application run. The
/// host keeps it beside the opaque OS handle under a mutual-exclusion
/// guard, and consults it before acting on the handle.
pub struct SupervisedProcess {
    state: ProcessState,
}

impl SupervisedProcess {
    pub closed spec fn state(self) -> ProcessState {
        self.state
    }

    /// A freshly spawned child starts out running.
    pub fn new() -> (p: SupervisedProcess)
        ensures
            p.state() is Running,
    {
        SupervisedProcess { state: ProcessState::Running }
    }

    /// Whether the one termination request is still outstanding.
    pub fn is_running(&self) -> (b: bool)
        ensures
            b == (self.state() is Running),
    {
        match self.state {
            ProcessState::Running => true,
            ProcessState::Terminated => false,
        }
    }

    /// Records a termination request and says whether the OS kill must be
    /// issued now. Total and infallible: a request on an already
    /// terminated process reports the non-fatal outcome instead of
    /// failing, so no shutdown path can crash here.
    pub fn terminate(&mut self) -> (r: TerminateOutcome)
        ensures
            final(self).state() == terminate_step(old(self).state()).0,
            r == terminate_step(old(self).state()).1,
            final(self).state() is Terminated,
            (r is Issued) <==> (old(self).state() is Running),
    {
        match self.state {
            ProcessState::Running => {
                self.state = ProcessState::Terminated;
                TerminateOutcome::Issued
            },
            ProcessState::Terminated => TerminateOutcome::AlreadyTerminated,
        }
    }
}

/// Turns a termination outcome into the shutdown path's report: an issued
/// kill is clean success, a repeated request surfaces as the non-fatal
/// already-terminated condition to be logged.
pub fn outcome_report(outcome: TerminateOutcome) -> (r: Result<(), TerminateError>)
    ensures
        (r is Ok) <==> (outcome is Issued),
        (outcome is AlreadyTerminated) ==> (r->Err_0 is AlreadyTerminated),
{
    match outcome {
        TerminateOutcome::Issued => Ok(()),
        TerminateOutcome::AlreadyTerminated => Err(TerminateError::AlreadyTerminated),
    }
}

/// Terminating twice is never a hard failure: after any request has been
/// honoured, a second one reports the already-terminated outcome and
/// leaves the state terminated.
pub proof fn lemma_terminate_twice_non_fatal(s: ProcessState)
    ensures
        terminate_step(terminate_step(s).0).1 is AlreadyTerminated,
        terminate_step(terminate_step(s).0).0 is Terminated,
{
}

/// Two shutdown triggers on a freshly spawned process, serialized by the
/// guard in either order, both complete: exactly one issues the OS kill
/// and the other reports the non-fatal already-terminated outcome.
pub proof fn lemma_concurrent_shutdown(s: ProcessState)
    requires
        s is Running,
    ensures
        terminate_step(s).1 is Issued,
        terminate_step(terminate_step(s).0).1 is AlreadyTerminated,
        terminate_step(terminate_step(s).0).0 is Terminated,
{
}

} // verus!

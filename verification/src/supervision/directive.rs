use vstd::prelude::*;

verus! {

/// What a supervisor does with a failed child.
#[derive(Debug, Clone, Copy, PartialEq, Eq, Structural)]
pub enum Directive {
    Resume,
    Restart,
    Stop,
    Escalate,
}

/// The children a supervision decision applies to.
#[derive(Debug, Clone, Copy, PartialEq, Eq, Structural)]
pub enum SupervisionAction {
    /// Resume the failed child only.
    ResumeChild,
    /// Restart every child of the supervisor.
    RestartAll,
    /// Stop every child of the supervisor.
    StopAll,
    /// Hand the failure to the supervisor's own parent.
    Escalate,
}

} // verus!

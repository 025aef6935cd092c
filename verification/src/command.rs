//! What the shell is told to do to one native window, and what a failure of
//! each step means for the operation that asked for it.

use vstd::prelude::*;

verus! {

/// One change to a native window.
#[derive(Clone, Copy, Debug, PartialEq, Eq, Structural)]
pub enum WindowCommand {
    /// Turn the drop shadow on.
    SetShadow,
    /// Apply the translucent backdrop material.
    ApplyBackdrop,
    Minimize,
    Unminimize,
    Maximize,
    Unmaximize,
    Show,
    Hide,
    SetFocus,
    /// Show or remove the native title bar and border.
    SetDecorations(bool),
    /// Set the border colour attribute to this value.
    SetBorderColor(u32),
}

/// What becomes of the running operation when a step fails. Nothing is
/// ever tried a second time.
#[derive(Clone, Copy, Debug, PartialEq, Eq, Structural)]
pub enum OnFailure {
    /// The failure is one the user cannot work around: the operation is
    /// abandoned on the spot, and the process keeps running.
    Abort,
    /// The operation ends early and hands the error to its caller, who
    /// decides.
    Surface,
    /// The step is decoration only: the failure is written to the log and
    /// the operation goes on.
    Log,
}

/// A command together with its failure policy.
#[derive(Clone, Copy, Debug, PartialEq, Eq, Structural)]
pub struct Step {
    pub command: WindowCommand,
    pub on_failure: OnFailure,
}

/// A step whose failure abandons the operation.
pub open spec fn vital(command: WindowCommand) -> Step {
    Step { command, on_failure: OnFailure::Abort }
}

/// A step whose failure is handed to the caller.
pub open spec fn surfaced(command: WindowCommand) -> Step {
    Step { command, on_failure: OnFailure::Surface }
}

/// A step whose failure is only logged.
pub open spec fn logged(command: WindowCommand) -> Step {
    Step { command, on_failure: OnFailure::Log }
}

/// The step that shows or removes the native decorations of a window. A
/// window whose chrome cannot be toggled is unusable, so failure aborts.
pub open spec fn decorations_step(enabled: bool) -> Step {
    vital(WindowCommand::SetDecorations(enabled))
}

/// Decides how the decorations of a window are toggled.
pub fn set_decorations(enabled: bool) -> (step: Step)
    ensures
        step == decorations_step(enabled),
{
    Step { command: WindowCommand::SetDecorations(enabled), on_failure: OnFailure::Abort }
}

} // verus!

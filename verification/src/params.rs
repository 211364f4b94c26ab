//! Parameter records of the tools that take one.
//!
//! Each record holds a single required string. The strings are opaque: they
//! are spliced into native command syntax as they are, and the window
//! manager's own parser is the judge of what they mean.
use vstd::prelude::*;

verus! {

/// Parameters of the switch-workspace tool.
#[derive(Clone, Debug, PartialEq, Eq)]
pub struct SwitchWorkspaceParams {
    /// Workspace to switch to, by number or by name.
    pub workspace: String,
}

/// Parameters of the focus-window tool.
#[derive(Clone, Debug, PartialEq, Eq)]
pub struct FocusWindowParams {
    /// Criteria that select the window, in the window manager's selector
    /// syntax.
    pub criteria: String,
}

/// Parameters of the move-to-workspace tool.
#[derive(Clone, Debug, PartialEq, Eq)]
pub struct MoveToWorkspaceParams {
    /// Workspace to move the focused window to.
    pub workspace: String,
}

/// Parameters of the raw-command tool.
#[derive(Clone, Debug, PartialEq, Eq)]
pub struct RunCommandParams {
    /// Native command, passed through untouched.
    pub command: String,
}

/// Parameters of the launch tool.
#[derive(Clone, Debug, PartialEq, Eq)]
pub struct ExecParams {
    /// Command line of the application to launch.
    pub command: String,
}

/// Parameters of the kill-window tool.
#[derive(Clone, Debug, PartialEq, Eq)]
pub struct KillWindowParams {
    /// Criteria that select the window to close.
    pub criteria: String,
}

} // verus!

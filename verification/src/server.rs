//! The tool set: one entry point per operation.
use vstd::prelude::*;

use crate::call::{Action, ActionView, Stage, ToolCall, ToolCallView};
use crate::operation::{Operation, OperationView};
use crate::response::{AdapterErrorView, ErrorKind};
use crate::params::{
    ExecParams, FocusWindowParams, KillWindowParams, MoveToWorkspaceParams, RunCommandParams,
    SwitchWorkspaceParams,
};

verus! {

/// The i3 tool set. It keeps no state: every call it begins stands alone,
/// with a connection of its own. Each entry point begins a call and says
/// which native action the call will perform once connected; how the call
/// goes on from there is told by [`ToolCall::step`]. A workspace switch or a
/// focus request that comes without its text is answered with an error at
/// once.
#[derive(Clone, Copy, Debug, PartialEq, Eq, Structural)]
pub struct I3Server {}

impl I3Server {
    /// Creates the tool set.
    pub fn new() -> (server: I3Server)
        ensures
            server == (I3Server {  }),
    {
        I3Server {  }
    }

    /// Begins a call that lists all workspaces with their properties.
    pub fn get_workspaces(&self) -> (out: (ToolCall, Action))
        ensures
            out.0@ == ToolCallView::started(OperationView::GetWorkspaces),
            out.1@ == ActionView::Connect,
            out.0@.operation.native_action() == Some(ActionView::GetWorkspaces),
    {
        ToolCall::start(Operation::GetWorkspaces)
    }

    /// Begins a call that fetches the full layout tree.
    pub fn get_tree(&self) -> (out: (ToolCall, Action))
        ensures
            out.0@ == ToolCallView::started(OperationView::GetTree),
            out.1@ == ActionView::Connect,
            out.0@.operation.native_action() == Some(ActionView::GetTree),
    {
        ToolCall::start(Operation::GetTree)
    }

    /// Begins a call that switches to a workspace. An empty identifier is
    /// rejected before anything is sent.
    pub fn switch_workspace(&self, params: SwitchWorkspaceParams) -> (out: (ToolCall, Action))
        ensures
            out.0@ == ToolCallView::started(OperationView::SwitchWorkspace(params.workspace@)),
            out.1@ == ToolCallView::first_action(
                OperationView::SwitchWorkspace(params.workspace@),
            ),
            params.workspace@.len() == 0 ==> out.0@.stage == Stage::Finished && out.1@
                == ActionView::Respond(
                Err(
                    AdapterErrorView {
                        kind: ErrorKind::InvalidParameter,
                        message: "Workspace must not be empty"@,
                    },
                ),
            ) && out.0@.operation.native_action() is None,
            params.workspace@.len() > 0 ==> out.0@.stage == Stage::Connecting && out.1@
                == ActionView::Connect && out.0@.operation.native_action() == Some(
                ActionView::RunCommand("workspace "@ + params.workspace@),
            ),
    {
        ToolCall::start(Operation::SwitchWorkspace(params))
    }

    /// Begins a call that focuses the window matching the criteria. Empty
    /// criteria are rejected before anything is sent.
    pub fn focus_window(&self, params: FocusWindowParams) -> (out: (ToolCall, Action))
        ensures
            out.0@ == ToolCallView::started(OperationView::FocusWindow(params.criteria@)),
            out.1@ == ToolCallView::first_action(OperationView::FocusWindow(params.criteria@)),
            params.criteria@.len() == 0 ==> out.0@.stage == Stage::Finished && out.1@
                == ActionView::Respond(
                Err(
                    AdapterErrorView {
                        kind: ErrorKind::InvalidParameter,
                        message: "Criteria must not be empty"@,
                    },
                ),
            ) && out.0@.operation.native_action() is None,
            params.criteria@.len() > 0 ==> out.0@.stage == Stage::Connecting && out.1@
                == ActionView::Connect && out.0@.operation.native_action() == Some(
                ActionView::RunCommand(params.criteria@ + " focus"@),
            ),
    {
        ToolCall::start(Operation::FocusWindow(params))
    }

    /// Begins a call that moves the focused window to a workspace.
    pub fn move_to_workspace(&self, params: MoveToWorkspaceParams) -> (out: (ToolCall, Action))
        ensures
            out.0@ == ToolCallView::started(OperationView::MoveToWorkspace(params.workspace@)),
            out.1@ == ActionView::Connect,
            out.0@.operation.native_action() == Some(ActionView::RunCommand(
                "move container to workspace "@ + params.workspace@,
            )),
    {
        ToolCall::start(Operation::MoveToWorkspace(params))
    }

    /// Begins a call that passes a native command through untouched and
    /// hands back the full list of native results.
    pub fn run_command(&self, params: RunCommandParams) -> (out: (ToolCall, Action))
        ensures
            out.0@ == ToolCallView::started(OperationView::RunCommand(params.command@)),
            out.1@ == ActionView::Connect,
            out.0@.operation.native_action() == Some(ActionView::RunCommand(params.command@)),
    {
        ToolCall::start(Operation::RunCommand(params))
    }

    /// Begins a call that launches an application.
    pub fn exec(&self, params: ExecParams) -> (out: (ToolCall, Action))
        ensures
            out.0@ == ToolCallView::started(OperationView::Exec(params.command@)),
            out.1@ == ActionView::Connect,
            out.0@.operation.native_action() == Some(
                ActionView::RunCommand("exec "@ + params.command@),
            ),
    {
        ToolCall::start(Operation::Exec(params))
    }

    /// Begins a call that closes the focused window.
    pub fn kill(&self) -> (out: (ToolCall, Action))
        ensures
            out.0@ == ToolCallView::started(OperationView::Kill),
            out.1@ == ActionView::Connect,
            out.0@.operation.native_action() == Some(ActionView::RunCommand("kill"@)),
    {
        ToolCall::start(Operation::Kill)
    }

    /// Begins a call that closes the window matching the criteria.
    pub fn kill_window(&self, params: KillWindowParams) -> (out: (ToolCall, Action))
        ensures
            out.0@ == ToolCallView::started(OperationView::KillWindow(params.criteria@)),
            out.1@ == ActionView::Connect,
            out.0@.operation.native_action() == Some(
                ActionView::RunCommand(params.criteria@ + " kill"@),
            ),
    {
        ToolCall::start(Operation::KillWindow(params))
    }

    /// Begins a call that toggles fullscreen for the focused window.
    pub fn fullscreen(&self) -> (out: (ToolCall, Action))
        ensures
            out.0@ == ToolCallView::started(OperationView::Fullscreen),
            out.1@ == ActionView::Connect,
            out.0@.operation.native_action() == Some(
                ActionView::RunCommand("fullscreen toggle"@),
            ),
    {
        ToolCall::start(Operation::Fullscreen)
    }
}

impl Default for I3Server {
    fn default() -> (server: I3Server)
        ensures
            server == (I3Server {  }),
    {
        I3Server::new()
    }
}

} // verus!

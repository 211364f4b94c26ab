//! The closed set of operations and the text each one puts on the wire or
//! hands back to the caller.
use vstd::prelude::*;

use crate::params::{
    ExecParams, FocusWindowParams, KillWindowParams, MoveToWorkspaceParams, RunCommandParams,
    SwitchWorkspaceParams,
};

verus! {

/// One validated tool invocation: the operation together with its
/// parameter record.
#[derive(Clone, Debug, PartialEq, Eq)]
pub enum Operation {
    GetWorkspaces,
    GetTree,
    SwitchWorkspace(SwitchWorkspaceParams),
    FocusWindow(FocusWindowParams),
    MoveToWorkspace(MoveToWorkspaceParams),
    RunCommand(RunCommandParams),
    Exec(ExecParams),
    Kill,
    KillWindow(KillWindowParams),
    Fullscreen,
}

/// Mathematical model of an [`Operation`]: the operation and the text of its
/// parameter.
pub enum OperationView {
    GetWorkspaces,
    GetTree,
    SwitchWorkspace(Seq<char>),
    FocusWindow(Seq<char>),
    MoveToWorkspace(Seq<char>),
    RunCommand(Seq<char>),
    Exec(Seq<char>),
    Kill,
    KillWindow(Seq<char>),
    Fullscreen,
}

impl View for Operation {
    type V = OperationView;

    open spec fn view(&self) -> OperationView {
        match self {
            Operation::GetWorkspaces => OperationView::GetWorkspaces,
            Operation::GetTree => OperationView::GetTree,
            Operation::SwitchWorkspace(params) => OperationView::SwitchWorkspace(
                params.workspace@,
            ),
            Operation::FocusWindow(params) => OperationView::FocusWindow(params.criteria@),
            Operation::MoveToWorkspace(params) => OperationView::MoveToWorkspace(
                params.workspace@,
            ),
            Operation::RunCommand(params) => OperationView::RunCommand(params.command@),
            Operation::Exec(params) => OperationView::Exec(params.command@),
            Operation::Kill => OperationView::Kill,
            Operation::KillWindow(params) => OperationView::KillWindow(params.criteria@),
            Operation::Fullscreen => OperationView::Fullscreen,
        }
    }
}

impl OperationView {
    /// Whether the operation comes without the text it cannot do without: a
    /// workspace switch with an empty identifier, or a focus request with
    /// empty criteria. This is the one validation made; what the text means
    /// is left to the window manager.
    pub open spec fn lacks_required_text(self) -> bool {
        match self {
            OperationView::SwitchWorkspace(workspace) => workspace.len() == 0,
            OperationView::FocusWindow(criteria) => criteria.len() == 0,
            _ => false,
        }
    }

    /// The native command string the operation issues. The two queries issue
    /// none, and neither does an operation that lacks its required text.
    /// Parameters are spliced in without quoting or escaping.
    pub open spec fn command(self) -> Option<Seq<char>> {
        match self {
            OperationView::GetWorkspaces => None,
            OperationView::GetTree => None,
            OperationView::SwitchWorkspace(workspace) => if workspace.len() == 0 {
                None
            } else {
                Some("workspace "@ + workspace)
            },
            OperationView::FocusWindow(criteria) => if criteria.len() == 0 {
                None
            } else {
                Some(criteria + " focus"@)
            },
            OperationView::MoveToWorkspace(workspace) => Some(
                "move container to workspace "@ + workspace,
            ),
            OperationView::RunCommand(command) => Some(command),
            OperationView::Exec(command) => Some("exec "@ + command),
            OperationView::Kill => Some("kill"@),
            OperationView::KillWindow(criteria) => Some(criteria + " kill"@),
            OperationView::Fullscreen => Some("fullscreen toggle"@),
        }
    }

    /// Whether the native reply is collapsed into a single message. The
    /// queries and the raw command hand back the full structured reply
    /// instead, and an operation that lacks its required text gets no reply
    /// at all.
    pub open spec fn is_normalized(self) -> bool {
        match self {
            OperationView::GetWorkspaces => false,
            OperationView::GetTree => false,
            OperationView::RunCommand(_) => false,
            _ => !self.lacks_required_text(),
        }
    }

    /// The confirmation returned when every sub-command succeeded. Empty for
    /// the operations that are not normalized.
    pub open spec fn confirmation(self) -> Seq<char> {
        if !self.is_normalized() {
            Seq::empty()
        } else {
            match self {
                OperationView::SwitchWorkspace(workspace) => "Switched to workspace '"@
                    + workspace + "'"@,
                OperationView::FocusWindow(criteria) => "Focused window matching '"@ + criteria
                    + "'"@,
                OperationView::MoveToWorkspace(workspace) => "Moved window to workspace '"@
                    + workspace + "'"@,
                OperationView::Exec(command) => "Launched '"@ + command + "'"@,
                OperationView::Kill => "Killed focused window"@,
                OperationView::KillWindow(criteria) => "Killed window matching '"@ + criteria
                    + "'"@,
                OperationView::Fullscreen => "Toggled fullscreen"@,
                _ => Seq::empty(),
            }
        }
    }

    /// What a failure message opens with, before the native error texts.
    /// Empty for the operations that are not normalized.
    pub open spec fn failure_prefix(self) -> Seq<char> {
        if !self.is_normalized() {
            Seq::empty()
        } else {
            match self {
                OperationView::SwitchWorkspace(_) => "Failed to switch workspace: "@,
                OperationView::FocusWindow(_) => "Failed to focus window: "@,
                OperationView::MoveToWorkspace(_) => "Failed to move window: "@,
                OperationView::Exec(_) => "Failed to launch: "@,
                OperationView::Kill => "Failed to kill window: "@,
                OperationView::KillWindow(_) => "Failed to kill window: "@,
                OperationView::Fullscreen => "Failed to toggle fullscreen: "@,
                _ => Seq::empty(),
            }
        }
    }

    /// What the message of a transmission failure opens with, before the
    /// cause.
    pub open spec fn io_failure_prefix(self) -> Seq<char> {
        match self {
            OperationView::GetWorkspaces => "Failed to get workspaces: "@,
            OperationView::GetTree => "Failed to get tree: "@,
            OperationView::SwitchWorkspace(_) => "Failed to switch workspace: "@,
            OperationView::FocusWindow(_) => "Failed to focus window: "@,
            OperationView::MoveToWorkspace(_) => "Failed to move window: "@,
            OperationView::RunCommand(_) => "Failed to run command: "@,
            OperationView::Exec(_) => "Failed to exec: "@,
            OperationView::Kill => "Failed to kill window: "@,
            OperationView::KillWindow(_) => "Failed to kill window: "@,
            OperationView::Fullscreen => "Failed to toggle fullscreen: "@,
        }
    }

    /// What the message of a serialization failure opens with, before the
    /// cause. Empty for the normalized operations, which serialize nothing.
    pub open spec fn serialization_failure_prefix(self) -> Seq<char> {
        match self {
            OperationView::GetWorkspaces => "Failed to serialize workspaces: "@,
            OperationView::GetTree => "Failed to serialize tree: "@,
            OperationView::RunCommand(_) => "Failed to serialize results: "@,
            _ => Seq::empty(),
        }
    }
}

impl Operation {
    /// Tells whether the operation comes without the text it cannot do
    /// without.
    pub fn lacks_required_text(&self) -> (lacking: bool)
        ensures
            lacking == self@.lacks_required_text(),
    {
        match self {
            Operation::SwitchWorkspace(params) => params.workspace.as_str().is_empty(),
            Operation::FocusWindow(params) => params.criteria.as_str().is_empty(),
            _ => false,
        }
    }

    /// Builds the native command string of the operation.
    pub fn command(&self) -> (text: Option<String>)
        ensures
            text.deep_view() == self@.command(),
    {
        if self.lacks_required_text() {
            return None;
        }
        match self {
            Operation::GetWorkspaces => None,
            Operation::GetTree => None,
            Operation::SwitchWorkspace(params) => Some(
                String::from_str("workspace ").concat(params.workspace.as_str()),
            ),
            Operation::FocusWindow(params) => Some(params.criteria.clone().concat(" focus")),
            Operation::MoveToWorkspace(params) => Some(
                String::from_str("move container to workspace ").concat(
                    params.workspace.as_str(),
                ),
            ),
            Operation::RunCommand(params) => Some(params.command.clone()),
            Operation::Exec(params) => Some(
                String::from_str("exec ").concat(params.command.as_str()),
            ),
            Operation::Kill => Some(String::from_str("kill")),
            Operation::KillWindow(params) => Some(params.criteria.clone().concat(" kill")),
            Operation::Fullscreen => Some(String::from_str("fullscreen toggle")),
        }
    }

    /// Tells whether the native reply of the operation is collapsed into a
    /// single message.
    pub fn is_normalized(&self) -> (normalized: bool)
        ensures
            normalized == self@.is_normalized(),
    {
        match self {
            Operation::GetWorkspaces => false,
            Operation::GetTree => false,
            Operation::RunCommand(_) => false,
            _ => !self.lacks_required_text(),
        }
    }

    /// Builds the confirmation returned when every sub-command succeeded.
    pub fn confirmation(&self) -> (text: String)
        ensures
            text@ == self@.confirmation(),
    {
        if !self.is_normalized() {
            return String::new();
        }
        match self {
            Operation::SwitchWorkspace(params) => String::from_str(
                "Switched to workspace '",
            ).concat(params.workspace.as_str()).concat("'"),
            Operation::FocusWindow(params) => String::from_str(
                "Focused window matching '",
            ).concat(params.criteria.as_str()).concat("'"),
            Operation::MoveToWorkspace(params) => String::from_str(
                "Moved window to workspace '",
            ).concat(params.workspace.as_str()).concat("'"),
            Operation::Exec(params) => String::from_str("Launched '").concat(
                params.command.as_str(),
            ).concat("'"),
            Operation::Kill => String::from_str("Killed focused window"),
            Operation::KillWindow(params) => String::from_str(
                "Killed window matching '",
            ).concat(params.criteria.as_str()).concat("'"),
            Operation::Fullscreen => String::from_str("Toggled fullscreen"),
            _ => String::new(),
        }
    }

    /// What a failure message of the operation opens with.
    pub fn failure_prefix(&self) -> (text: &'static str)
        ensures
            text@ == self@.failure_prefix(),
    {
        proof {
            reveal_strlit("");
        }
        assert(""@ =~= Seq::<char>::empty());
        if !self.is_normalized() {
            return "";
        }
        match self {
            Operation::SwitchWorkspace(_) => "Failed to switch workspace: ",
            Operation::FocusWindow(_) => "Failed to focus window: ",
            Operation::MoveToWorkspace(_) => "Failed to move window: ",
            Operation::Exec(_) => "Failed to launch: ",
            Operation::Kill => "Failed to kill window: ",
            Operation::KillWindow(_) => "Failed to kill window: ",
            Operation::Fullscreen => "Failed to toggle fullscreen: ",
            _ => "",
        }
    }

    /// What the message of a transmission failure of the operation opens
    /// with.
    pub fn io_failure_prefix(&self) -> (text: &'static str)
        ensures
            text@ == self@.io_failure_prefix(),
    {
        match self {
            Operation::GetWorkspaces => "Failed to get workspaces: ",
            Operation::GetTree => "Failed to get tree: ",
            Operation::SwitchWorkspace(_) => "Failed to switch workspace: ",
            Operation::FocusWindow(_) => "Failed to focus window: ",
            Operation::MoveToWorkspace(_) => "Failed to move window: ",
            Operation::RunCommand(_) => "Failed to run command: ",
            Operation::Exec(_) => "Failed to exec: ",
            Operation::Kill => "Failed to kill window: ",
            Operation::KillWindow(_) => "Failed to kill window: ",
            Operation::Fullscreen => "Failed to toggle fullscreen: ",
        }
    }

    /// What the message of a serialization failure of the operation opens
    /// with.
    pub fn serialization_failure_prefix(&self) -> (text: &'static str)
        ensures
            text@ == self@.serialization_failure_prefix(),
    {
        match self {
            Operation::GetWorkspaces => "Failed to serialize workspaces: ",
            Operation::GetTree => "Failed to serialize tree: ",
            Operation::RunCommand(_) => "Failed to serialize results: ",
            _ => {
                proof {
                    reveal_strlit("");
                }
                assert(""@ =~= Seq::<char>::empty());
                ""
            },
        }
    }
}

} // verus!

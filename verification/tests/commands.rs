use rmcp_i3::{
    Action, AdapterError, ErrorKind, ExecParams, FocusWindowParams, KillWindowParams,
    MoveToWorkspaceParams, Operation, RunCommandParams, SwitchWorkspaceParams,
};

#[test]
fn switch_workspace_command() {
    let op = Operation::SwitchWorkspace(SwitchWorkspaceParams { workspace: "web".to_string() });
    assert_eq!(op.command(), Some("workspace web".to_string()));
}

#[test]
fn focus_window_command() {
    let op = Operation::FocusWindow(FocusWindowParams {
        criteria: "[class=\"Firefox\"]".to_string(),
    });
    assert_eq!(op.command(), Some("[class=\"Firefox\"] focus".to_string()));
}

#[test]
fn move_to_workspace_command() {
    let op = Operation::MoveToWorkspace(MoveToWorkspaceParams { workspace: "3".to_string() });
    assert_eq!(op.command(), Some("move container to workspace 3".to_string()));
}

#[test]
fn run_command_passes_the_string_through() {
    let op = Operation::RunCommand(RunCommandParams {
        command: "split h; layout tabbed".to_string(),
    });
    assert_eq!(op.command(), Some("split h; layout tabbed".to_string()));
}

#[test]
fn exec_command() {
    let op = Operation::Exec(ExecParams { command: "firefox".to_string() });
    assert_eq!(op.command(), Some("exec firefox".to_string()));
}

#[test]
fn kill_command() {
    assert_eq!(Operation::Kill.command(), Some("kill".to_string()));
}

#[test]
fn kill_window_command() {
    let op = Operation::KillWindow(KillWindowParams { criteria: "[title=\"vim\"]".to_string() });
    assert_eq!(op.command(), Some("[title=\"vim\"] kill".to_string()));
}

#[test]
fn fullscreen_command() {
    assert_eq!(Operation::Fullscreen.command(), Some("fullscreen toggle".to_string()));
}

#[test]
fn queries_issue_no_command() {
    assert_eq!(Operation::GetWorkspaces.command(), None);
    assert_eq!(Operation::GetTree.command(), None);
}

#[test]
fn parameters_are_not_quoted_or_escaped() {
    let op = Operation::SwitchWorkspace(SwitchWorkspaceParams {
        workspace: "a b; \"c\" \\ 'd'".to_string(),
    });
    assert_eq!(op.command(), Some("workspace a b; \"c\" \\ 'd'".to_string()));
    assert_eq!(op.confirmation(), "Switched to workspace 'a b; \"c\" \\ 'd''");
}

#[test]
fn empty_required_text_issues_no_command() {
    let op = Operation::SwitchWorkspace(SwitchWorkspaceParams { workspace: String::new() });
    assert!(op.lacks_required_text());
    assert_eq!(op.command(), None);
    assert_eq!(op.native_action(), None);
    let op = Operation::FocusWindow(FocusWindowParams { criteria: String::new() });
    assert!(op.lacks_required_text());
    assert_eq!(op.command(), None);
    assert_eq!(op.native_action(), None);
}

#[test]
fn empty_required_text_has_no_wording() {
    let op = Operation::FocusWindow(FocusWindowParams { criteria: String::new() });
    assert!(!op.is_normalized());
    assert_eq!(op.confirmation(), "");
    assert_eq!(op.failure_prefix(), "");
    let op = Operation::SwitchWorkspace(SwitchWorkspaceParams { workspace: String::new() });
    assert!(!op.is_normalized());
    assert_eq!(op.confirmation(), "");
    assert_eq!(op.failure_prefix(), "");
}

#[test]
fn empty_required_text_is_rejected_with_its_own_error() {
    let op = Operation::SwitchWorkspace(SwitchWorkspaceParams { workspace: String::new() });
    assert_eq!(
        op.rejection(),
        Some(AdapterError {
            kind: ErrorKind::InvalidParameter,
            message: "Workspace must not be empty".to_string(),
        })
    );
    let op = Operation::FocusWindow(FocusWindowParams { criteria: String::new() });
    assert_eq!(
        op.rejection(),
        Some(AdapterError {
            kind: ErrorKind::InvalidParameter,
            message: "Criteria must not be empty".to_string(),
        })
    );
}

#[test]
fn text_that_is_present_is_never_rejected() {
    let text = |s: &str| s.to_string();
    let present = vec![
        Operation::GetWorkspaces,
        Operation::GetTree,
        Operation::SwitchWorkspace(SwitchWorkspaceParams { workspace: text(" ") }),
        Operation::SwitchWorkspace(SwitchWorkspaceParams { workspace: text("2") }),
        Operation::FocusWindow(FocusWindowParams { criteria: text("[class=\"Firefox\"]") }),
        Operation::FocusWindow(FocusWindowParams { criteria: text("not criteria at all") }),
        Operation::RunCommand(RunCommandParams { command: text("kill") }),
        Operation::Exec(ExecParams { command: text("firefox") }),
        Operation::Kill,
        Operation::Fullscreen,
    ];
    for op in present {
        assert!(!op.lacks_required_text());
        assert_eq!(op.rejection(), None);
        assert!(op.native_action().is_some());
    }
}

#[test]
fn native_action_is_the_query_or_the_command() {
    assert_eq!(Operation::GetWorkspaces.native_action(), Some(Action::GetWorkspaces));
    assert_eq!(Operation::GetTree.native_action(), Some(Action::GetTree));
    assert_eq!(Operation::Kill.native_action(), Some(Action::RunCommand("kill".to_string())));
    let op = Operation::Exec(ExecParams { command: "firefox".to_string() });
    assert_eq!(op.native_action(), Some(Action::RunCommand("exec firefox".to_string())));
}

#[test]
fn non_ascii_parameter_is_kept() {
    let op = Operation::SwitchWorkspace(SwitchWorkspaceParams { workspace: "büro ☕".to_string() });
    assert_eq!(op.command(), Some("workspace büro ☕".to_string()));
    assert_eq!(op.confirmation(), "Switched to workspace 'büro ☕'");
}

#[test]
fn transmission_failure_prefixes() {
    let text = |s: &str| s.to_string();
    assert_eq!(Operation::GetWorkspaces.io_failure_prefix(), "Failed to get workspaces: ");
    assert_eq!(Operation::GetTree.io_failure_prefix(), "Failed to get tree: ");
    assert_eq!(
        Operation::SwitchWorkspace(SwitchWorkspaceParams { workspace: text("1") })
            .io_failure_prefix(),
        "Failed to switch workspace: "
    );
    assert_eq!(
        Operation::FocusWindow(FocusWindowParams { criteria: text("[x]") }).io_failure_prefix(),
        "Failed to focus window: "
    );
    assert_eq!(
        Operation::MoveToWorkspace(MoveToWorkspaceParams { workspace: text("1") })
            .io_failure_prefix(),
        "Failed to move window: "
    );
    assert_eq!(
        Operation::RunCommand(RunCommandParams { command: text("kill") }).io_failure_prefix(),
        "Failed to run command: "
    );
    assert_eq!(
        Operation::Exec(ExecParams { command: text("kitty") }).io_failure_prefix(),
        "Failed to exec: "
    );
    assert_eq!(Operation::Kill.io_failure_prefix(), "Failed to kill window: ");
    assert_eq!(
        Operation::KillWindow(KillWindowParams { criteria: text("[x]") }).io_failure_prefix(),
        "Failed to kill window: "
    );
    assert_eq!(Operation::Fullscreen.io_failure_prefix(), "Failed to toggle fullscreen: ");
}

#[test]
fn serialization_failure_prefixes() {
    assert_eq!(
        Operation::GetWorkspaces.serialization_failure_prefix(),
        "Failed to serialize workspaces: "
    );
    assert_eq!(Operation::GetTree.serialization_failure_prefix(), "Failed to serialize tree: ");
    assert_eq!(
        Operation::RunCommand(RunCommandParams { command: "kill".to_string() })
            .serialization_failure_prefix(),
        "Failed to serialize results: "
    );
    assert_eq!(Operation::Kill.serialization_failure_prefix(), "");
}

use swayped::commands::{
    mapping_key, process_command, sway_new_workspaces, workspace_command, BuiltinCommand,
    CommandDesc, InputCommand, RouteAction,
};
use swayped::config::{Mapping, TomlConfig};

fn mapping(gesture: &str, finger_count: Option<i32>, cmd: &str, cmd_type: &str) -> Mapping {
    Mapping {
        gesture: gesture.to_string(),
        cmd: cmd.to_string(),
        cmd_type: cmd_type.to_string(),
        finger_count,
    }
}

#[test]
fn test_command_desc_new() {
    let config = TomlConfig { mappings: vec![] };

    let cmd_desc = CommandDesc::new(false, config);

    assert_eq!(cmd_desc.dry_run, false);
    assert_eq!(cmd_desc.mappings.len(), 0);
}

#[test]
fn test_command_desc_process_fail() {
    // An event absent from the table routes to no action: a normal
    // outcome, not a fault.
    let config = TomlConfig {
        mappings: vec![mapping("swipe_up", Some(3), "workspace_new", "sway")],
    };

    let cmd_desc = CommandDesc::new(false, config);

    let cmd = InputCommand::SwipeDown(3);
    let res = cmd.process_command(&cmd_desc);
    assert!(matches!(res, RouteAction::NoMapping));
}

#[test]
fn test_mapping_key_recognized_combinations() {
    assert_eq!(
        mapping_key(&mapping("swipe_left", Some(3), "c", "sway")),
        Some(InputCommand::SwipeLeft(3))
    );
    assert_eq!(
        mapping_key(&mapping("swipe_right", Some(4), "c", "sway")),
        Some(InputCommand::SwipeRight(4))
    );
    assert_eq!(
        mapping_key(&mapping("swipe_up", Some(3), "c", "sway")),
        Some(InputCommand::SwipeUp(3))
    );
    assert_eq!(
        mapping_key(&mapping("swipe_down", Some(3), "c", "sway")),
        Some(InputCommand::SwipeDown(3))
    );
    assert_eq!(
        mapping_key(&mapping("scrollwheel_left", None, "c", "sway")),
        Some(InputCommand::ScrollLeft)
    );
    assert_eq!(
        mapping_key(&mapping("scrollwheel_right", None, "c", "sway")),
        Some(InputCommand::ScrollRight)
    );
}

#[test]
fn test_mapping_key_unrecognized_combinations() {
    // A swipe needs a finger count; a scroll must not carry one; unknown
    // gesture names are dropped.
    assert_eq!(mapping_key(&mapping("swipe_up", None, "c", "sway")), None);
    assert_eq!(
        mapping_key(&mapping("scrollwheel_left", Some(2), "c", "sway")),
        None
    );
    assert_eq!(mapping_key(&mapping("pinch_in", Some(2), "c", "sway")), None);
}

#[test]
fn test_table_skips_unrecognized_entries() {
    let config = TomlConfig {
        mappings: vec![
            mapping("swipe_up", None, "a", "sway"),
            mapping("no_such_gesture", Some(3), "b", "sway"),
        ],
    };
    let cmd_desc = CommandDesc::new(false, config);
    assert_eq!(cmd_desc.mappings.len(), 0);
}

#[test]
fn test_table_first_entry_wins() {
    let config = TomlConfig {
        mappings: vec![
            mapping("swipe_up", Some(3), "first", "sway"),
            mapping("swipe_up", Some(3), "second", "sway"),
        ],
    };
    let cmd_desc = CommandDesc::new(false, config);
    assert_eq!(cmd_desc.mappings.len(), 1);

    let res = InputCommand::SwipeUp(3).process_command(&cmd_desc);
    assert!(matches!(res, RouteAction::SwayCommand { cmd } if cmd == "first"));
}

#[test]
fn test_route_sway_command() {
    let config = TomlConfig {
        mappings: vec![mapping("scrollwheel_right", None, "workspace next", "sway")],
    };
    let cmd_desc = CommandDesc::new(false, config);
    let res = InputCommand::ScrollRight.process_command(&cmd_desc);
    assert!(matches!(res, RouteAction::SwayCommand { cmd } if cmd == "workspace next"));
}

#[test]
fn test_route_builtin_workspace_new() {
    let config = TomlConfig {
        mappings: vec![mapping("swipe_up", Some(3), "workspace_new", "builtin")],
    };
    let cmd_desc = CommandDesc::new(false, config);
    let res = InputCommand::SwipeUp(3).process_command(&cmd_desc);
    assert!(matches!(res, RouteAction::WorkspaceNew));
}

#[test]
fn test_route_unsupported_builtin() {
    let config = TomlConfig {
        mappings: vec![mapping("swipe_up", Some(3), "no_such_builtin", "builtin")],
    };
    let cmd_desc = CommandDesc::new(false, config);
    let res = InputCommand::SwipeUp(3).process_command(&cmd_desc);
    assert!(matches!(res, RouteAction::UnsupportedBuiltin { cmd } if cmd == "no_such_builtin"));
}

#[test]
fn test_route_unsupported_type() {
    let config = TomlConfig {
        mappings: vec![mapping("swipe_up", Some(3), "c", "no_such_type")],
    };
    let cmd_desc = CommandDesc::new(false, config);
    let res = InputCommand::SwipeUp(3).process_command(&cmd_desc);
    assert!(matches!(res, RouteAction::UnsupportedType { cmd_type } if cmd_type == "no_such_type"));
}

#[test]
fn test_dry_run_only_reports() {
    // Dry-run mode never reaches the command sink: a mapped event
    // resolves to a report, whatever its kind.
    let config = TomlConfig {
        mappings: vec![
            mapping("swipe_up", Some(3), "workspace_new", "builtin"),
            mapping("scrollwheel_left", None, "workspace prev", "sway"),
        ],
    };
    let cmd_desc = CommandDesc::new(true, config);

    let res = InputCommand::SwipeUp(3).process_command(&cmd_desc);
    assert!(matches!(res, RouteAction::DryRun { cmd, cmd_type } if cmd == "workspace_new" && cmd_type == "builtin"));

    let res = InputCommand::ScrollLeft.process_command(&cmd_desc);
    assert!(matches!(res, RouteAction::DryRun { cmd, cmd_type } if cmd == "workspace prev" && cmd_type == "sway"));

    let res = InputCommand::SwipeDown(3).process_command(&cmd_desc);
    assert!(matches!(res, RouteAction::NoMapping));
}

#[test]
fn test_failed_command_does_not_disturb_later_events() {
    // Routing keeps no history: after an event whose compositor command
    // the sink would fail, the next event still resolves as it would
    // have on its own.
    let config = TomlConfig {
        mappings: vec![
            mapping("swipe_up", Some(3), "exec broken-command", "sway"),
            mapping("swipe_down", Some(3), "workspace back_and_forth", "sway"),
        ],
    };
    let cmd_desc = CommandDesc::new(false, config);

    let res = InputCommand::SwipeUp(3).process_command(&cmd_desc);
    assert!(matches!(res, RouteAction::SwayCommand { cmd } if cmd == "exec broken-command"));
    // The caller's attempt to run it fails at the sink; it logs and goes on.

    let res = InputCommand::SwipeDown(3).process_command(&cmd_desc);
    assert!(matches!(res, RouteAction::SwayCommand { cmd } if cmd == "workspace back_and_forth"));
}

#[test]
fn test_builtin_name_resolution() {
    assert_eq!(process_command("workspace_new"), BuiltinCommand::WorkspaceNew);
    assert_eq!(process_command("workspace_old"), BuiltinCommand::Unsupported);
    assert_eq!(process_command(""), BuiltinCommand::Unsupported);
}

#[test]
fn test_workspace_new_targets() {
    assert_eq!(sway_new_workspaces(vec![1, 2, 4]), 3);
    assert_eq!(sway_new_workspaces(vec![]), 1);
    assert_eq!(sway_new_workspaces(vec![2, 3]), 1);
    assert_eq!(sway_new_workspaces(vec![1, 2, 3]), 4);
}

#[test]
fn test_workspace_new_unsorted_and_odd_inputs() {
    // The order the compositor reports workspaces in does not matter.
    assert_eq!(sway_new_workspaces(vec![4, 1, 2]), 3);
    // Non-positive identifiers and duplicates cannot shadow the lowest
    // unused positive number.
    assert_eq!(sway_new_workspaces(vec![-1, 1, 2]), 3);
    assert_eq!(sway_new_workspaces(vec![1, 1, 2]), 3);
}

#[test]
fn test_workspace_command_text() {
    assert_eq!(workspace_command(1), "workspace 1");
    assert_eq!(workspace_command(3), "workspace 3");
    assert_eq!(workspace_command(10), "workspace 10");
    assert_eq!(workspace_command(42), "workspace 42");
    assert_eq!(workspace_command(2147483647), "workspace 2147483647");
}

use nekoland_shell::cli::{
    dedupe_events, parse_cli_from, ActionCommand, CompletionShellArg, HelpOutputMode, IpcCommand, IpcSubscription,
    OutputCommand, ParsedAction, PopupCommand, QueryCommand, SplitAxis, SubscriptionCommand,
    SubscriptionOutputMode, SubscriptionTopic, WindowCommand,
};

fn args(words: &[&str]) -> Vec<String> {
    words.iter().map(|word| word.to_string()).collect()
}

fn parse_ok(words: &[&str]) -> ParsedAction {
    let Ok(action) = parse_cli_from(&args(words)) else {
        panic!("CLI arguments should parse successfully");
    };
    action
}

#[test]
fn parses_query_tree_alias() {
    assert_eq!(
        parse_ok(&["nekoland-msg", "query", "tree"]),
        ParsedAction::Request(IpcCommand::Query(QueryCommand::GetTree))
    );
    assert_eq!(
        parse_ok(&["nekoland-msg", "get_tree"]),
        ParsedAction::Request(IpcCommand::Query(QueryCommand::GetTree))
    );
}

#[test]
fn parses_query_commands_alias() {
    assert_eq!(
        parse_ok(&["nekoland-msg", "query", "commands"]),
        ParsedAction::Request(IpcCommand::Query(QueryCommand::GetCommands))
    );
    assert_eq!(
        parse_ok(&["nekoland-msg", "get_commands"]),
        ParsedAction::Request(IpcCommand::Query(QueryCommand::GetCommands))
    );
}

#[test]
fn parses_query_windows_alias() {
    assert_eq!(
        parse_ok(&["nekoland-msg", "query", "windows"]),
        ParsedAction::Request(IpcCommand::Query(QueryCommand::GetWindows))
    );
    assert_eq!(
        parse_ok(&["nekoland-msg", "get_windows"]),
        ParsedAction::Request(IpcCommand::Query(QueryCommand::GetWindows))
    );
}

#[test]
fn parses_query_keyboard_layouts_alias() {
    assert_eq!(
        parse_ok(&["nekoland-msg", "query", "keyboard-layouts"]),
        ParsedAction::Request(IpcCommand::Query(QueryCommand::GetKeyboardLayouts))
    );
    assert_eq!(
        parse_ok(&["nekoland-msg", "get_keyboard_layouts"]),
        ParsedAction::Request(IpcCommand::Query(QueryCommand::GetKeyboardLayouts))
    );
}

#[test]
fn parses_query_config_alias() {
    assert_eq!(
        parse_ok(&["nekoland-msg", "query", "config"]),
        ParsedAction::Request(IpcCommand::Query(QueryCommand::GetConfig))
    );
    assert_eq!(
        parse_ok(&["nekoland-msg", "get_config"]),
        ParsedAction::Request(IpcCommand::Query(QueryCommand::GetConfig))
    );
}

#[test]
fn parses_query_clipboard_alias() {
    assert_eq!(
        parse_ok(&["nekoland-msg", "query", "clipboard"]),
        ParsedAction::Request(IpcCommand::Query(QueryCommand::GetClipboard))
    );
    assert_eq!(
        parse_ok(&["nekoland-msg", "get_clipboard"]),
        ParsedAction::Request(IpcCommand::Query(QueryCommand::GetClipboard))
    );
}

#[test]
fn parses_query_primary_selection_alias() {
    assert_eq!(
        parse_ok(&["nekoland-msg", "query", "primary-selection"]),
        ParsedAction::Request(IpcCommand::Query(QueryCommand::GetPrimarySelection))
    );
    assert_eq!(
        parse_ok(&["nekoland-msg", "get_primary_selection"]),
        ParsedAction::Request(IpcCommand::Query(QueryCommand::GetPrimarySelection))
    );
}

#[test]
fn parses_window_move() {
    assert_eq!(
        parse_ok(&["nekoland-msg", "window", "move", "7", "12", "-4"]),
        ParsedAction::Request(IpcCommand::Window(WindowCommand::Move {
            surface_id: 7,
            x: 12,
            y: -4
        }))
    );
}

#[test]
fn parses_window_background() {
    assert_eq!(
        parse_ok(&["nekoland-msg", "window", "background", "7", "Virtual-1"]),
        ParsedAction::Request(IpcCommand::Window(WindowCommand::Background {
            surface_id: 7,
            output: "Virtual-1".to_owned(),
        }))
    );
}

#[test]
fn parses_output_viewport_pan() {
    assert_eq!(
        parse_ok(&["nekoland-msg", "output", "viewport-pan", "Virtual-1", "-40", "25"]),
        ParsedAction::Request(IpcCommand::Output(OutputCommand::ViewportPan {
            output: "Virtual-1".to_owned(),
            dx: -40,
            dy: 25,
        }))
    );
}

#[test]
fn parses_output_center_viewport_on_window() {
    assert_eq!(
        parse_ok(&["nekoland-msg", "output", "center-viewport-on-window", "Virtual-1", "77"]),
        ParsedAction::Request(IpcCommand::Output(OutputCommand::CenterViewportOnWindow {
            output: "Virtual-1".to_owned(),
            surface_id: 77,
        }))
    );
}

#[test]
fn parses_window_split() {
    assert_eq!(
        parse_ok(&["nekoland-msg", "window", "split", "7", "vertical"]),
        ParsedAction::Request(IpcCommand::Window(WindowCommand::Split {
            surface_id: 7,
            axis: SplitAxis::Vertical,
        }))
    );
}

#[test]
fn parses_action_focus_workspace() {
    assert_eq!(
        parse_ok(&["nekoland-msg", "action", "focus-workspace", "2"]),
        ParsedAction::Request(IpcCommand::Action(ActionCommand::FocusWorkspace {
            workspace: "2".to_owned(),
        }))
    );
}

#[test]
fn parses_action_focus_window() {
    assert_eq!(
        parse_ok(&["nekoland-msg", "action", "focus-window", "--id", "77"]),
        ParsedAction::Request(IpcCommand::Action(ActionCommand::FocusWindow { id: 77 }))
    );
}

#[test]
fn parses_action_spawn() {
    assert_eq!(
        parse_ok(&["nekoland-msg", "action", "spawn", "foot", "--server"]),
        ParsedAction::Request(IpcCommand::Action(ActionCommand::Spawn {
            command: vec!["foot".to_owned(), "--server".to_owned()],
        }))
    );
}

#[test]
fn parses_action_switch_keyboard_layout_variants() {
    assert_eq!(
        parse_ok(&["nekoland-msg", "action", "switch-keyboard-layout-next"]),
        ParsedAction::Request(IpcCommand::Action(ActionCommand::SwitchKeyboardLayoutNext))
    );
    assert_eq!(
        parse_ok(&["nekoland-msg", "action", "switch-keyboard-layout-prev"]),
        ParsedAction::Request(IpcCommand::Action(ActionCommand::SwitchKeyboardLayoutPrev))
    );
    assert_eq!(
        parse_ok(&["nekoland-msg", "action", "switch-keyboard-layout-name", "de"]),
        ParsedAction::Request(IpcCommand::Action(ActionCommand::SwitchKeyboardLayoutByName {
            name: "de".to_owned(),
        }))
    );
    assert_eq!(
        parse_ok(&["nekoland-msg", "action", "switch-keyboard-layout-index", "2"]),
        ParsedAction::Request(IpcCommand::Action(ActionCommand::SwitchKeyboardLayoutByIndex {
            index: 2,
        }))
    );
}

#[test]
fn parses_action_reload_config() {
    assert_eq!(
        parse_ok(&["nekoland-msg", "action", "reload-config"]),
        ParsedAction::Request(IpcCommand::Action(ActionCommand::ReloadConfig))
    );
}

#[test]
fn parses_action_quit() {
    assert_eq!(
        parse_ok(&["nekoland-msg", "action", "quit"]),
        ParsedAction::Request(IpcCommand::Action(ActionCommand::Quit))
    );
}

#[test]
fn parses_popup_dismiss() {
    assert_eq!(
        parse_ok(&["nekoland-msg", "popup", "dismiss", "9"]),
        ParsedAction::Request(IpcCommand::Popup(PopupCommand::Dismiss { surface_id: 9 }))
    );
}

#[test]
fn parses_popup_subscription() {
    assert_eq!(
        parse_ok(&["nekoland-msg", "subscribe", "popup"]),
        ParsedAction::Subscribe(SubscriptionCommand {
            subscription: IpcSubscription {
                topic: SubscriptionTopic::Popup,
                include_payloads: true,
                events: Vec::new(),
            },
            output_mode: SubscriptionOutputMode::Pretty,
        })
    );
}

#[test]
fn parses_keyboard_layout_subscription() {
    assert_eq!(
        parse_ok(&["nekoland-msg", "subscribe", "keyboard-layout"]),
        ParsedAction::Subscribe(SubscriptionCommand {
            subscription: IpcSubscription {
                topic: SubscriptionTopic::KeyboardLayout,
                include_payloads: true,
                events: Vec::new(),
            },
            output_mode: SubscriptionOutputMode::Pretty,
        })
    );
}

#[test]
fn parses_command_subscription() {
    assert_eq!(
        parse_ok(&["nekoland-msg", "subscribe", "command", "--event", "command_*"]),
        ParsedAction::Subscribe(SubscriptionCommand {
            subscription: IpcSubscription {
                topic: SubscriptionTopic::Command,
                include_payloads: true,
                events: vec!["command_*".to_owned()],
            },
            output_mode: SubscriptionOutputMode::Pretty,
        })
    );
}

#[test]
fn parses_config_subscription() {
    assert_eq!(
        parse_ok(&["nekoland-msg", "subscribe", "config", "--event", "config_changed"]),
        ParsedAction::Subscribe(SubscriptionCommand {
            subscription: IpcSubscription {
                topic: SubscriptionTopic::Config,
                include_payloads: true,
                events: vec!["config_changed".to_owned()],
            },
            output_mode: SubscriptionOutputMode::Pretty,
        })
    );
}

#[test]
fn parses_focus_subscription() {
    assert_eq!(
        parse_ok(&["nekoland-msg", "subscribe", "focus", "--event", "focus_changed"]),
        ParsedAction::Subscribe(SubscriptionCommand {
            subscription: IpcSubscription {
                topic: SubscriptionTopic::Focus,
                include_payloads: true,
                events: vec!["focus_changed".to_owned()],
            },
            output_mode: SubscriptionOutputMode::Pretty,
        })
    );
}

#[test]
fn parses_clipboard_subscription() {
    assert_eq!(
        parse_ok(&["nekoland-msg", "subscribe", "clipboard", "--event", "clipboard_changed"]),
        ParsedAction::Subscribe(SubscriptionCommand {
            subscription: IpcSubscription {
                topic: SubscriptionTopic::Clipboard,
                include_payloads: true,
                events: vec!["clipboard_changed".to_owned()],
            },
            output_mode: SubscriptionOutputMode::Pretty,
        })
    );
}

#[test]
fn parses_primary_selection_subscription() {
    assert_eq!(
        parse_ok(&[
            "nekoland-msg",
            "subscribe",
            "primary-selection",
            "--event",
            "primary_selection_changed",
        ]),
        ParsedAction::Subscribe(SubscriptionCommand {
            subscription: IpcSubscription {
                topic: SubscriptionTopic::PrimarySelection,
                include_payloads: true,
                events: vec!["primary_selection_changed".to_owned()],
            },
            output_mode: SubscriptionOutputMode::Pretty,
        })
    );
}

#[test]
fn parses_tree_subscription_without_payloads() {
    assert_eq!(
        parse_ok(&["nekoland-msg", "subscribe", "tree", "--no-payloads"]),
        ParsedAction::Subscribe(SubscriptionCommand {
            subscription: IpcSubscription {
                topic: SubscriptionTopic::Tree,
                include_payloads: false,
                events: Vec::new(),
            },
            output_mode: SubscriptionOutputMode::Pretty,
        })
    );
}

#[test]
fn parses_output_subscription_as_jsonl() {
    assert_eq!(
        parse_ok(&["nekoland-msg", "subscribe", "output", "--jsonl", "--no-payloads"]),
        ParsedAction::Subscribe(SubscriptionCommand {
            subscription: IpcSubscription {
                topic: SubscriptionTopic::Output,
                include_payloads: false,
                events: Vec::new(),
            },
            output_mode: SubscriptionOutputMode::Jsonl,
        })
    );
}

#[test]
fn parses_completion_subcommand() {
    assert_eq!(
        parse_ok(&["nekoland-msg", "completion", "bash"]),
        ParsedAction::Completion(CompletionShellArg::Bash)
    );
    assert_eq!(
        parse_ok(&["nekoland-msg", "completion", "fish"]),
        ParsedAction::Completion(CompletionShellArg::Fish)
    );
}

#[test]
fn parses_all_subscription_with_multiple_event_filters() {
    assert_eq!(
        parse_ok(&[
            "nekoland-msg",
            "subscribe",
            "all",
            "--event",
            "workspaces_*",
            "--event",
            "tree_*",
            "--jsonl",
        ]),
        ParsedAction::Subscribe(SubscriptionCommand {
            subscription: IpcSubscription {
                topic: SubscriptionTopic::All,
                include_payloads: true,
                events: vec!["workspaces_*".to_owned(), "tree_*".to_owned()],
            },
            output_mode: SubscriptionOutputMode::Jsonl,
        })
    );
}

#[test]
fn rejects_missing_subscription_event_name() {
    assert!(parse_cli_from(&args(&["nekoland-msg", "subscribe", "workspace", "--event"])).is_err());
}

#[test]
fn deduplicates_repeated_subscription_event_filters() {
    assert_eq!(
        parse_ok(&[
            "nekoland-msg",
            "subscribe",
            "workspace",
            "--event",
            "workspaces_changed",
            "--event",
            "workspaces_changed",
        ]),
        ParsedAction::Subscribe(SubscriptionCommand {
            subscription: IpcSubscription {
                topic: SubscriptionTopic::Workspace,
                include_payloads: true,
                events: vec!["workspaces_changed".to_owned()],
            },
            output_mode: SubscriptionOutputMode::Pretty,
        })
    );
}

#[test]
fn rejects_conflicting_subscription_output_flags() {
    assert!(
        parse_cli_from(&args(&["nekoland-msg", "subscribe", "workspace", "--pretty", "--jsonl",]))
            .is_err()
    );
}

#[test]
fn rejects_json_outside_subscription_help() {
    assert!(parse_cli_from(&args(&["nekoland-msg", "subscribe", "workspace", "--json"])).is_err());
}

#[test]
fn recognizes_subscription_help_forms() {
    assert_eq!(
        parse_ok(&["nekoland-msg", "subscribe", "--help"]),
        ParsedAction::SubscriptionHelp(HelpOutputMode::Text)
    );
    assert_eq!(
        parse_ok(&["nekoland-msg", "help", "subscribe"]),
        ParsedAction::SubscriptionHelp(HelpOutputMode::Text)
    );
    assert_eq!(
        parse_ok(&["nekoland-msg", "subscribe", "--help", "--json"]),
        ParsedAction::SubscriptionHelp(HelpOutputMode::Json)
    );
    assert_eq!(
        parse_ok(&["nekoland-msg", "help", "subscribe", "--json"]),
        ParsedAction::SubscriptionHelp(HelpOutputMode::Json)
    );
}

#[test]
fn parses_present_audit_query_and_subscription() {
    assert_eq!(
        parse_ok(&["nekoland-msg", "query", "present-audit"]),
        ParsedAction::Request(IpcCommand::Query(QueryCommand::GetPresentAudit))
    );
    assert_eq!(
        parse_ok(&["nekoland-msg", "subscribe", "present-audit"]),
        ParsedAction::Subscribe(SubscriptionCommand {
            subscription: IpcSubscription {
                topic: SubscriptionTopic::PresentAudit,
                include_payloads: true,
                events: Vec::new(),
            },
            output_mode: SubscriptionOutputMode::Pretty,
        })
    );
}

#[test]
fn deduplicating_event_filters_is_idempotent_and_keeps_distinct_lists() {
    let once = dedupe_events(args(&["window_*", "tree_changed", "window_*", "focus_changed", "tree_changed"]));
    assert_eq!(once, args(&["window_*", "tree_changed", "focus_changed"]));
    assert_eq!(dedupe_events(once.clone()), once);
    let distinct = args(&["a", "b", "c"]);
    assert_eq!(dedupe_events(distinct.clone()), distinct);
}

#[test]
fn spawn_help_and_escape_follow_the_argument_rules() {
    let help = parse_cli_from(&args(&["nekoland-msg", "action", "spawn", "--help"])).unwrap_err();
    assert_eq!(help.kind, nekoland_shell::cli::CliErrorKind::DisplayHelp);
    let help = parse_cli_from(&args(&["nekoland-msg", "action", "spawn", "-h"])).unwrap_err();
    assert_eq!(help.kind, nekoland_shell::cli::CliErrorKind::DisplayHelp);
    assert_eq!(
        parse_ok(&["nekoland-msg", "action", "spawn", "--", "foot", "-e"]),
        ParsedAction::Request(IpcCommand::Action(ActionCommand::Spawn {
            command: vec!["foot".to_owned(), "-e".to_owned()],
        }))
    );
    assert_eq!(
        parse_ok(&["nekoland-msg", "action", "spawn", "foot", "--help"]),
        ParsedAction::Request(IpcCommand::Action(ActionCommand::Spawn {
            command: vec!["foot".to_owned(), "--help".to_owned()],
        }))
    );
    let missing = parse_cli_from(&args(&["nekoland-msg", "action", "spawn", "--"])).unwrap_err();
    assert_eq!(missing.kind, nekoland_shell::cli::CliErrorKind::MissingRequiredArgument);
}

#[test]
fn query_aliases_parse_like_query_subcommands() {
    for (sub, alias) in [
        ("tree", "get_tree"),
        ("outputs", "get_outputs"),
        ("workspaces", "get_workspaces"),
        ("windows", "get_windows"),
        ("commands", "get_commands"),
        ("config", "get_config"),
        ("keyboard-layouts", "get_keyboard_layouts"),
        ("clipboard", "get_clipboard"),
        ("primary-selection", "get_primary_selection"),
    ] {
        assert_eq!(parse_ok(&["nekoland-msg", "query", sub]), parse_ok(&["nekoland-msg", alias]));
    }
}

use std::collections::BTreeMap;

use nekoland_shell::commands::{
    external_command_launch_outcome, next_launch_candidate, CandidateAttempt,
    ExternalCommandRequest, LaunchOutcome, SpawnAttempt,
    command_history_system, dispatch_configured_action, nested_wayland_env, queue_exec_command,
    quit_shortcut_system, startup_action_queue_system, startup_actions_disabled,
    validate_action_sequence, ActionDispatch, AppLifecycleState, CommandExecutionStatus,
    CommandHistoryState, ConfiguredAction, ExternalCommandFailed, ExternalCommandLaunched,
    FocusedWindowOp, OutputOp, OutputTarget, ProtocolServerState, StartupActionState, StartupGate,
    WaylandIngress, XWaylandServerState,
};
use nekoland_shell::tiling::{HorizontalDirection, TilingControl};
use nekoland_shell::workspace::{WorkspaceControl, WorkspaceLookup, WorkspaceSelector};

fn ingress(enabled: bool, ready: bool, display: Option<&str>) -> WaylandIngress {
    WaylandIngress {
        protocol_server: ProtocolServerState {
            socket_name: Some("wayland-77".to_owned()),
            runtime_dir: Some("/tmp/nekoland-runtime".to_owned()),
        },
        xwayland_server: XWaylandServerState {
            enabled,
            ready,
            display_name: display.map(|name| name.to_owned()),
        },
    }
}

fn exec_true() -> Vec<ConfiguredAction> {
    vec![ConfiguredAction::Exec { argv: vec!["true".to_owned()] }]
}

/// Runs one tick of startup actions, then records a successful launch of every staged command in
/// the history, as the launcher would.
fn run_startup_tick(
    state: &mut StartupActionState,
    ingress: &WaylandIngress,
    history: &mut CommandHistoryState,
) {
    let outcome = startup_action_queue_system(state, false, ingress, &exec_true(), None);
    let launched: Vec<ExternalCommandLaunched> = outcome
        .dispatched
        .iter()
        .filter_map(|dispatch| match dispatch {
            ActionDispatch::Exec { argv } => Some(ExternalCommandLaunched {
                origin: "startup".to_owned(),
                command: argv.clone(),
                pid: 4242,
            }),
            _ => None,
        })
        .collect();
    command_history_system(16, 1, 10, &launched, &Vec::new(), history);
}

#[test]
fn mod_shift_q_requests_quit_once() {
    let mut lifecycle = AppLifecycleState { quit_requested: false };
    let mut events = Vec::new();
    if let Some(entry) = quit_shortcut_system(&mut lifecycle, true) {
        events.push(entry);
    }
    assert!(lifecycle.quit_requested);
    assert_eq!(events.len(), 1);
    assert_eq!(events[0].source, "keyboard:shortcut");
    assert_eq!(events[0].detail, "Mod+Shift+Q -> requested compositor quit");
    assert!(quit_shortcut_system(&mut lifecycle, true).is_none());
}

#[test]
fn plain_q_does_not_request_quit() {
    let mut lifecycle = AppLifecycleState { quit_requested: false };
    let logged = quit_shortcut_system(&mut lifecycle, false);
    assert!(!lifecycle.quit_requested);
    assert!(logged.is_none());
}

#[test]
fn nested_wayland_env_scrubs_host_display_leaks_without_xwayland() {
    let env = nested_wayland_env(Some(&ingress(true, false, Some(":77"))));
    let vars = env.vars.iter().cloned().collect::<BTreeMap<_, _>>();
    assert_eq!(vars.get("WAYLAND_DISPLAY"), Some(&"wayland-77".to_owned()));
    assert_eq!(vars.get("XDG_RUNTIME_DIR"), Some(&"/tmp/nekoland-runtime".to_owned()));
    assert_eq!(vars.get("XDG_CURRENT_DESKTOP"), Some(&"nekoland".to_owned()));
    assert_eq!(vars.get("XDG_SESSION_DESKTOP"), Some(&"nekoland".to_owned()));
    assert_eq!(vars.get("DESKTOP_SESSION"), Some(&"nekoland".to_owned()));
    assert_eq!(vars.get("XDG_SESSION_TYPE"), Some(&"wayland".to_owned()));
    assert!(
        !vars.contains_key("DISPLAY"),
        "host DISPLAY should be removed until nested XWayland is ready"
    );
    assert_eq!(
        env.removals,
        vec![
            "DISPLAY".to_owned(),
            "WAYLAND_DISPLAY".to_owned(),
            "WAYLAND_SOCKET".to_owned(),
            "HYPRLAND_INSTANCE_SIGNATURE".to_owned(),
            "HYPRLAND_CMD".to_owned(),
            "SWAYSOCK".to_owned(),
            "NIRI_SOCKET".to_owned(),
            "I3SOCK".to_owned(),
            "DESKTOP_STARTUP_ID".to_owned(),
            "XDG_ACTIVATION_TOKEN".to_owned(),
        ]
    );
}

#[test]
fn nested_wayland_env_sets_nested_display_when_xwayland_ready() {
    let env = nested_wayland_env(Some(&ingress(true, true, Some(":77"))));
    let vars = env.vars.iter().cloned().collect::<BTreeMap<_, _>>();
    assert_eq!(vars.get("DISPLAY"), Some(&":77".to_owned()));
    assert_eq!(vars.get("WAYLAND_DISPLAY"), Some(&"wayland-77".to_owned()));
    assert_eq!(vars.get("XDG_SESSION_DESKTOP"), Some(&"nekoland".to_owned()));
    assert_eq!(vars.get("DESKTOP_SESSION"), Some(&"nekoland".to_owned()));
}

#[test]
fn nested_wayland_env_without_ingress_sets_only_the_desktop_identity() {
    let env = nested_wayland_env(None);
    let names: Vec<&str> = env.vars.iter().map(|(name, _)| name.as_str()).collect();
    assert_eq!(
        names,
        vec!["XDG_CURRENT_DESKTOP", "XDG_SESSION_DESKTOP", "DESKTOP_SESSION", "XDG_SESSION_TYPE"]
    );
    assert_eq!(env.removals.len(), 10);
}

#[test]
fn startup_actions_wait_for_xwayland_ready_when_enabled() {
    let mut state = StartupActionState::default();
    let mut history = CommandHistoryState { limit: 16, items: Vec::new() };
    let mut session = ingress(true, false, None);
    run_startup_tick(&mut state, &session, &mut history);
    assert!(!state.queued, "should wait for xwayland ready");

    session.xwayland_server.ready = true;
    run_startup_tick(&mut state, &session, &mut history);
    assert!(state.queued, "should be queued after xwayland ready");
    assert_eq!(history.items.len(), 1, "should have executed after xwayland ready");
}

#[test]
fn startup_actions_run_immediately_when_xwayland_disabled() {
    let mut state = StartupActionState::default();
    let mut history = CommandHistoryState { limit: 16, items: Vec::new() };
    run_startup_tick(&mut state, &ingress(false, false, None), &mut history);
    assert!(state.queued, "should run when xwayland disabled");
    assert_eq!(history.items.len(), 1, "should have executed");
}

#[test]
fn startup_actions_run_immediately_when_xwayland_not_present() {
    let mut state = StartupActionState::default();
    let mut history = CommandHistoryState { limit: 16, items: Vec::new() };
    let session = WaylandIngress {
        protocol_server: ProtocolServerState {
            socket_name: Some("wayland-77".to_owned()),
            runtime_dir: Some("/tmp/nekoland-runtime".to_owned()),
        },
        xwayland_server: XWaylandServerState { enabled: false, ready: false, display_name: None },
    };
    run_startup_tick(&mut state, &session, &mut history);
    assert!(state.queued, "should run when no xwayland resource");
    assert_eq!(history.items.len(), 1, "should have executed");
}

#[test]
fn startup_actions_run_at_most_once() {
    let mut state = StartupActionState::default();
    let session = ingress(false, false, None);
    let first = startup_action_queue_system(&mut state, false, &session, &exec_true(), None);
    assert_eq!(first.gate, StartupGate::Dispatched);
    assert_eq!(first.applied, 1);
    let second = startup_action_queue_system(&mut state, false, &session, &exec_true(), None);
    assert_eq!(second.gate, StartupGate::AlreadyQueued);
    assert!(second.dispatched.is_empty());
}

#[test]
fn startup_actions_wait_for_the_socket_and_honour_the_environment() {
    let mut state = StartupActionState::default();
    let mut session = ingress(false, false, None);
    session.protocol_server.socket_name = None;
    let waiting = startup_action_queue_system(&mut state, false, &session, &exec_true(), None);
    assert_eq!(waiting.gate, StartupGate::AwaitingSocket);
    assert!(!state.queued);

    let disabled = startup_action_queue_system(&mut state, true, &session, &exec_true(), None);
    assert_eq!(disabled.gate, StartupGate::DisabledByEnv);
    assert!(state.queued);

    let mut fresh = StartupActionState::default();
    let none = startup_action_queue_system(&mut fresh, false, &ingress(false, false, None), &Vec::new(), None);
    assert_eq!(none.gate, StartupGate::NoActions);
    assert!(fresh.queued);
}

#[test]
fn startup_window_actions_without_focus_are_not_applied() {
    let mut state = StartupActionState::default();
    let actions = vec![
        ConfiguredAction::CloseFocusedWindow,
        ConfiguredAction::FocusTilingColumn { direction: HorizontalDirection::Left },
    ];
    let outcome = startup_action_queue_system(&mut state, false, &ingress(false, false, None), &actions, None);
    assert_eq!(outcome.dispatched[0], ActionDispatch::IgnoredNoFocus);
    assert_eq!(
        outcome.dispatched[1],
        ActionDispatch::Tiling(TilingControl::FocusColumn { direction: HorizontalDirection::Left })
    );
    assert_eq!(outcome.applied, 1);
}

#[test]
fn environment_values_that_disable_startup_actions() {
    assert!(!startup_actions_disabled(None));
    assert!(!startup_actions_disabled(Some("")));
    assert!(!startup_actions_disabled(Some("0")));
    assert!(!startup_actions_disabled(Some("false")));
    assert!(!startup_actions_disabled(Some("FaLsE")));
    assert!(startup_actions_disabled(Some("1")));
    assert!(startup_actions_disabled(Some("yes")));
    assert!(startup_actions_disabled(Some("00")));
}

#[test]
fn action_sequences_are_validated() {
    assert_eq!(
        validate_action_sequence(&Vec::new()),
        Err("action sequence must contain at least one action".to_owned())
    );
    assert_eq!(
        validate_action_sequence(&vec![ConfiguredAction::Exec { argv: Vec::new() }]),
        Err("command action must include at least one argv element".to_owned())
    );
    assert_eq!(
        validate_action_sequence(&vec![
            ConfiguredAction::CloseFocusedWindow,
            ConfiguredAction::Exec { argv: vec![" \t".to_owned(), "x".to_owned()] },
        ]),
        Err("command action must not start with an empty program".to_owned())
    );
    assert_eq!(
        validate_action_sequence(&vec![
            ConfiguredAction::CloseFocusedWindow,
            ConfiguredAction::Exec { argv: vec!["foot".to_owned()] },
        ]),
        Ok(())
    );
}

#[test]
fn configured_actions_dispatch_to_controls() {
    assert_eq!(
        dispatch_configured_action(&ConfiguredAction::MoveFocusedWindow { x: 10, y: -5 }, Some(7)),
        ActionDispatch::Window { surface_id: 7, op: FocusedWindowOp::MoveTo { x: 10, y: -5 } }
    );
    assert_eq!(
        dispatch_configured_action(
            &ConfiguredAction::DestroyWorkspace { workspace: WorkspaceLookup::Name("web".to_owned()) },
            None
        ),
        ActionDispatch::Workspace(WorkspaceControl::Destroy {
            target: WorkspaceSelector::Name("web".to_owned())
        })
    );
    assert_eq!(
        dispatch_configured_action(&ConfiguredAction::CenterViewportOnFocusedWindow, None),
        ActionDispatch::IgnoredNoFocus
    );
    assert_eq!(
        dispatch_configured_action(&ConfiguredAction::CenterViewportOnFocusedWindow, Some(3)),
        ActionDispatch::Output {
            target: OutputTarget::Focused,
            op: OutputOp::CenterViewportOnWindow { surface_id: 3 }
        }
    );
    assert_eq!(
        dispatch_configured_action(
            &ConfiguredAction::Exec { argv: vec!["foot".to_owned(), "--server".to_owned()] },
            None
        ),
        ActionDispatch::Exec { argv: vec!["foot".to_owned(), "--server".to_owned()] }
    );
}

#[test]
fn queued_exec_commands_carry_one_candidate() {
    let mut pending = Vec::new();
    queue_exec_command("bind".to_owned(), vec!["foot".to_owned()], &mut pending);
    assert_eq!(pending.len(), 1);
    assert_eq!(pending[0].origin, "bind");
    assert_eq!(pending[0].candidates, vec![vec!["foot".to_owned()]]);
}

#[test]
fn command_history_keeps_only_the_newest_records() {
    let mut history = CommandHistoryState { limit: 2, items: Vec::new() };
    let launched: Vec<ExternalCommandLaunched> = (1..=3)
        .map(|pid| ExternalCommandLaunched {
            origin: format!("bind-{pid}"),
            command: vec!["foot".to_owned()],
            pid,
        })
        .collect();
    let failed = vec![ExternalCommandFailed {
        origin: "bind-4".to_owned(),
        candidates: vec![vec!["missing".to_owned()]],
        error: "missing: not found".to_owned(),
    }];
    command_history_system(2, 9, 90, &launched, &failed, &mut history);
    assert_eq!(history.items.len(), 2);
    assert_eq!(history.items[0].origin, "bind-3");
    assert_eq!(history.items[0].status, Some(CommandExecutionStatus::Launched { pid: 3 }));
    assert_eq!(history.items[0].candidates, vec![vec!["foot".to_owned()]]);
    assert_eq!(history.items[1].origin, "bind-4");
    assert_eq!(history.items[1].command, None);
    assert_eq!(history.items[1].frame, 9);

    command_history_system(1, 10, 100, &Vec::new(), &Vec::new(), &mut history);
    assert_eq!(history.limit, 1);
    assert_eq!(history.items.len(), 1);
    assert_eq!(history.items[0].origin, "bind-4");

    command_history_system(0, 11, 110, &launched, &Vec::new(), &mut history);
    assert!(history.items.is_empty());
}

fn launch_request() -> ExternalCommandRequest {
    ExternalCommandRequest {
        origin: "keybinding Super+Return".to_owned(),
        candidates: vec![
            Vec::new(),
            vec!["missing-terminal".to_owned()],
            vec!["foot".to_owned(), "-e".to_owned(), "htop".to_owned()],
        ],
    }
}

#[test]
fn launch_candidates_skip_empty_command_lines() {
    let request = launch_request();
    assert_eq!(next_launch_candidate(&request, 0), Some(1));
    assert_eq!(next_launch_candidate(&request, 2), Some(2));
    assert_eq!(next_launch_candidate(&request, 3), None);
}

#[test]
fn first_started_candidate_is_reported_launched() {
    let request = launch_request();
    let attempts = vec![
        CandidateAttempt { candidate: 1, result: SpawnAttempt::Failed("No such file or directory (os error 2)".to_owned()) },
        CandidateAttempt { candidate: 2, result: SpawnAttempt::Started(4242) },
    ];
    let (outcome, record) = external_command_launch_outcome(&request, &attempts);
    match outcome {
        LaunchOutcome::Launched(event) => {
            assert_eq!(event.origin, "keybinding Super+Return");
            assert_eq!(event.command, vec!["foot".to_owned(), "-e".to_owned(), "htop".to_owned()]);
            assert_eq!(event.pid, 4242);
        }
        LaunchOutcome::Failed(_) => panic!("the second candidate started"),
    }
    assert_eq!(record.source, "commands");
    assert_eq!(record.detail, "keybinding Super+Return -> launched `foot -e htop` (pid 4242)");
}

#[test]
fn launch_failure_reports_the_last_error() {
    let request = launch_request();
    let attempts = vec![
        CandidateAttempt { candidate: 1, result: SpawnAttempt::Failed("first".to_owned()) },
        CandidateAttempt { candidate: 2, result: SpawnAttempt::Failed("permission denied".to_owned()) },
    ];
    let (outcome, record) = external_command_launch_outcome(&request, &attempts);
    match outcome {
        LaunchOutcome::Failed(event) => {
            assert_eq!(event.error, "foot -e htop: permission denied");
            assert_eq!(event.candidates, request.candidates);
        }
        LaunchOutcome::Launched(_) => panic!("nothing started"),
    }
    assert_eq!(record.detail, "keybinding Super+Return -> foot -e htop: permission denied");
}

#[test]
fn launch_without_candidates_is_ignored() {
    let request = ExternalCommandRequest { origin: "startup".to_owned(), candidates: vec![Vec::new()] };
    let (outcome, record) = external_command_launch_outcome(&request, &Vec::new());
    match outcome {
        LaunchOutcome::Failed(event) => {
            assert_eq!(event.error, "ignored because no executable candidates were available");
        }
        LaunchOutcome::Launched(_) => panic!("nothing started"),
    }
    assert_eq!(record.detail, "startup -> ignored because no executable candidates were available");
}

//! Startup actions, the quit shortcut, configured-action dispatch, and the environment handed to
//! external commands launched inside the nested session.
//!
//! Spawning processes and reading the host environment happen at the edge; this module decides
//! what to spawn, with which environment, and what each configured action turns into.

#[allow(unused_imports)]
use vstd::prelude::*;
use crate::search::{first_index, first_index_from};
use crate::text::{decimal, u32_to_string};
use crate::shortcuts::{has_id, ids_unique, register_builtin, ShortcutRegistry, ShortcutTrigger, ShortcutView};
use crate::tiling::{HorizontalDirection, TilingControl, TilingPanDirection, VerticalDirection};
use crate::workspace::{WorkspaceControl, WorkspaceLookup, WorkspaceSelector};

verus! {

/// Whether the startup actions of this session were already evaluated.
#[derive(Clone, Copy, Debug, PartialEq, Eq, Structural)]
pub struct StartupActionState {
    /// Set once startup actions were evaluated, so they run at most once per session.
    pub queued: bool,
}

impl Default for StartupActionState {
    fn default() -> (state: Self)
        ensures
            !state.queued,
    {
        StartupActionState { queued: false }
    }
}

/// One human-readable input-log entry.
#[derive(Clone, Debug, PartialEq, Eq)]
pub struct InputEventRecord {
    pub source: String,
    pub detail: String,
}

/// Application lifecycle flags the shell may raise.
#[derive(Clone, Copy, Debug, PartialEq, Eq, Structural)]
pub struct AppLifecycleState {
    pub quit_requested: bool,
}

/// Requests an orderly quit when the quit shortcut was just pressed and no quit is pending yet;
/// the returned entry is the one input-log line recording it.
pub fn quit_shortcut_system(lifecycle: &mut AppLifecycleState, quit_just_pressed: bool) -> (logged:
    Option<InputEventRecord>)
    ensures
        final(lifecycle).quit_requested == (old(lifecycle).quit_requested || quit_just_pressed),
        logged is Some <==> (!old(lifecycle).quit_requested && quit_just_pressed),
        logged matches Some(entry) ==> entry.source@ == "keyboard:shortcut"@ && entry.detail@
            == "Mod+Shift+Q -> requested compositor quit"@,
{
    if lifecycle.quit_requested || !quit_just_pressed {
        return None;
    }
    lifecycle.quit_requested = true;
    Some(
        InputEventRecord {
            source: "keyboard:shortcut".to_owned(),
            detail: "Mod+Shift+Q -> requested compositor quit".to_owned(),
        },
    )
}

/// The nested protocol server as far as child processes care.
#[derive(Clone, Debug, PartialEq, Eq)]
pub struct ProtocolServerState {
    pub socket_name: Option<String>,
    pub runtime_dir: Option<String>,
}

/// The optional XWayland bridge.
#[derive(Clone, Debug, PartialEq, Eq)]
pub struct XWaylandServerState {
    pub enabled: bool,
    pub ready: bool,
    pub display_name: Option<String>,
}

/// Where clients of the nested session connect.
#[derive(Clone, Debug, PartialEq, Eq)]
pub struct WaylandIngress {
    pub protocol_server: ProtocolServerState,
    pub xwayland_server: XWaylandServerState,
}

/// Environment changes for a child process: variables to set, in order, and variables to remove.
#[derive(Clone, Debug, PartialEq, Eq)]
pub struct ChildCommandEnvironment {
    pub vars: Vec<(String, String)>,
    pub removals: Vec<String>,
}

/// A variable assignment by its text.
pub open spec fn var_view(var: (String, String)) -> (Seq<char>, Seq<char>) {
    (var.0@, var.1@)
}

/// Variables of the host session that must not leak into nested clients.
pub open spec fn host_session_variables() -> Seq<Seq<char>> {
    seq![
        "DISPLAY"@,
        "WAYLAND_DISPLAY"@,
        "WAYLAND_SOCKET"@,
        "HYPRLAND_INSTANCE_SIGNATURE"@,
        "HYPRLAND_CMD"@,
        "SWAYSOCK"@,
        "NIRI_SOCKET"@,
        "I3SOCK"@,
        "DESKTOP_STARTUP_ID"@,
        "XDG_ACTIVATION_TOKEN"@,
    ]
}

/// One assignment when a value is present.
pub open spec fn optional_var(name: Seq<char>, value: Option<String>) -> Seq<(Seq<char>, Seq<char>)> {
    match value {
        Some(value) => seq![(name, value@)],
        None => seq![],
    }
}

/// The assignments for a child of the nested session: the socket and runtime directory when
/// known, the desktop identity, and the nested X display once XWayland is ready.
pub open spec fn nested_env_vars(ingress: Option<WaylandIngress>) -> Seq<(Seq<char>, Seq<char>)> {
    let (socket, runtime) = match ingress {
        Some(ingress) => (
            optional_var("WAYLAND_DISPLAY"@, ingress.protocol_server.socket_name),
            optional_var("XDG_RUNTIME_DIR"@, ingress.protocol_server.runtime_dir),
        ),
        None => (seq![], seq![]),
    };
    let identity = seq![
        ("XDG_CURRENT_DESKTOP"@, "nekoland"@),
        ("XDG_SESSION_DESKTOP"@, "nekoland"@),
        ("DESKTOP_SESSION"@, "nekoland"@),
        ("XDG_SESSION_TYPE"@, "wayland"@),
    ];
    let display = match ingress {
        Some(ingress) => if ingress.xwayland_server.ready {
            optional_var("DISPLAY"@, ingress.xwayland_server.display_name)
        } else {
            seq![]
        },
        None => seq![],
    };
    socket + runtime + identity + display
}

fn push_var(vars: &mut Vec<(String, String)>, name: &str, value: String)
    ensures
        final(vars)@.map_values(|v: (String, String)| var_view(v)) == old(vars)@.map_values(
            |v: (String, String)| var_view(v),
        ).push((name@, value@)),
{
    vars.push((name.to_owned(), value));
    assert(final(vars)@.map_values(|v: (String, String)| var_view(v)) =~= old(vars)@.map_values(
        |v: (String, String)| var_view(v),
    ).push((name@, value@)));
}

fn push_optional_var(vars: &mut Vec<(String, String)>, name: &str, value: &Option<String>)
    ensures
        final(vars)@.map_values(|v: (String, String)| var_view(v)) == old(vars)@.map_values(
            |v: (String, String)| var_view(v),
        ) + optional_var(name@, *value),
{
    match value {
        Some(value) => {
            push_var(vars, name, value.clone());
            assert(seq![(name@, value@)] =~= optional_var(name@, Some(*value)));
        },
        None => {
            assert(old(vars)@.map_values(|v: (String, String)| var_view(v)) + optional_var(
                name@,
                None,
            ) =~= old(vars)@.map_values(|v: (String, String)| var_view(v)));
        },
    }
}

/// The environment for a command launched inside the nested session: every host-session
/// variable is removed, and the nested session's variables are set.
pub fn nested_wayland_env(ingress: Option<&WaylandIngress>) -> (env: ChildCommandEnvironment)
    ensures
        env.removals@.map_values(|name: String| name@) == host_session_variables(),
        env.vars@.map_values(|v: (String, String)| var_view(v)) == nested_env_vars(
            match ingress {
                Some(ingress) => Some(*ingress),
                None => None,
            },
        ),
{
    let mut removals: Vec<String> = Vec::new();
    removals.push("DISPLAY".to_owned());
    removals.push("WAYLAND_DISPLAY".to_owned());
    removals.push("WAYLAND_SOCKET".to_owned());
    removals.push("HYPRLAND_INSTANCE_SIGNATURE".to_owned());
    removals.push("HYPRLAND_CMD".to_owned());
    removals.push("SWAYSOCK".to_owned());
    removals.push("NIRI_SOCKET".to_owned());
    removals.push("I3SOCK".to_owned());
    removals.push("DESKTOP_STARTUP_ID".to_owned());
    removals.push("XDG_ACTIVATION_TOKEN".to_owned());
    assert(removals@.map_values(|name: String| name@) =~= host_session_variables());

    let mut vars: Vec<(String, String)> = Vec::new();
    let ghost start = vars@.map_values(|v: (String, String)| var_view(v));
    assert(start =~= Seq::<(Seq<char>, Seq<char>)>::empty());
    if let Some(ingress) = ingress {
        push_optional_var(&mut vars, "WAYLAND_DISPLAY", &ingress.protocol_server.socket_name);
        push_optional_var(&mut vars, "XDG_RUNTIME_DIR", &ingress.protocol_server.runtime_dir);
    }
    let ghost after_server = vars@.map_values(|v: (String, String)| var_view(v));
    push_var(&mut vars, "XDG_CURRENT_DESKTOP", "nekoland".to_owned());
    push_var(&mut vars, "XDG_SESSION_DESKTOP", "nekoland".to_owned());
    push_var(&mut vars, "DESKTOP_SESSION", "nekoland".to_owned());
    push_var(&mut vars, "XDG_SESSION_TYPE", "wayland".to_owned());
    let ghost after_identity = vars@.map_values(|v: (String, String)| var_view(v));
    assert(after_identity =~= after_server + seq![
        ("XDG_CURRENT_DESKTOP"@, "nekoland"@),
        ("XDG_SESSION_DESKTOP"@, "nekoland"@),
        ("DESKTOP_SESSION"@, "nekoland"@),
        ("XDG_SESSION_TYPE"@, "wayland"@),
    ]);
    if let Some(ingress) = ingress {
        if ingress.xwayland_server.ready {
            push_optional_var(&mut vars, "DISPLAY", &ingress.xwayland_server.display_name);
        } else {
            assert(after_identity + seq![] =~= after_identity);
        }
    } else {
        assert(after_identity + seq![] =~= after_identity);
    }
    let ghost spec_ingress = match ingress {
        Some(ingress) => Some(*ingress),
        None => None::<WaylandIngress>,
    };
    assert(vars@.map_values(|v: (String, String)| var_view(v)) =~= nested_env_vars(spec_ingress));
    ChildCommandEnvironment { vars, removals }
}

/// Code point of the ASCII lower case of a character; other characters keep their own.
pub open spec fn ascii_lower(c: char) -> int {
    if 'A' <= c <= 'Z' {
        (c as u32) + 32
    } else {
        c as u32 as int
    }
}

/// Equality up to ASCII case.
pub open spec fn eq_ignore_ascii_case(a: Seq<char>, b: Seq<char>) -> bool {
    a.len() == b.len() && forall|i: int| 0 <= i < a.len() ==> ascii_lower(#[trigger] a[i]) == ascii_lower(b[i])
}

/// Whether the value of the variable that disables startup actions turns them off: any
/// non-empty value other than `0` and `false` (in any ASCII case).
pub open spec fn disables_startup_actions(value: Seq<char>) -> bool {
    value.len() > 0 && !eq_ignore_ascii_case(value, "0"@) && !eq_ignore_ascii_case(value, "false"@)
}

/// Equality up to ASCII case carries over through a value equal up to ASCII case.
proof fn lemma_eq_ignore_case_through(a: Seq<char>, b: Seq<char>, w: Seq<char>)
    requires
        eq_ignore_ascii_case(a, b),
    ensures
        eq_ignore_ascii_case(a, w) == eq_ignore_ascii_case(b, w),
{
    if eq_ignore_ascii_case(a, w) {
        assert forall|i: int| 0 <= i < b.len() implies ascii_lower(#[trigger] b[i]) == ascii_lower(w[i]) by {
            assert(ascii_lower(a[i]) == ascii_lower(b[i]));
            assert(ascii_lower(a[i]) == ascii_lower(w[i]));
        }
    }
    if eq_ignore_ascii_case(b, w) {
        assert forall|i: int| 0 <= i < a.len() implies ascii_lower(#[trigger] a[i]) == ascii_lower(w[i]) by {
            assert(ascii_lower(a[i]) == ascii_lower(b[i]));
            assert(ascii_lower(b[i]) == ascii_lower(w[i]));
        }
    }
}

/// The switch that disables startup actions ignores ASCII case: values equal up to case (such
/// as `FALSE` and `false`) turn startup actions off alike.
pub proof fn law_startup_switch_ignores_ascii_case(a: Seq<char>, b: Seq<char>)
    requires
        eq_ignore_ascii_case(a, b),
    ensures
        disables_startup_actions(a) == disables_startup_actions(b),
{
    lemma_eq_ignore_case_through(a, b, "0"@);
    lemma_eq_ignore_case_through(a, b, "false"@);
}

fn lower_char(c: char) -> (result: u32)
    ensures
        result == ascii_lower(c),
{
    let code: u32 = c as u32;
    if 'A' <= c && c <= 'Z' {
        code + 32
    } else {
        code
    }
}

fn str_eq_ignore_ascii_case(value: &str, literal: &str) -> (result: bool)
    ensures
        result == eq_ignore_ascii_case(value@, literal@),
{
    let n = value.unicode_len();
    if n != literal.unicode_len() {
        return false;
    }
    let mut i: usize = 0;
    while i < n
        invariant
            n == value@.len(),
            n == literal@.len(),
            i <= n,
            forall|j: int| 0 <= j < i ==> ascii_lower(#[trigger] value@[j]) == ascii_lower(literal@[j]),
        decreases n - i,
    {
        if lower_char(value.get_char(i)) != lower_char(literal.get_char(i)) {
            return false;
        }
        i += 1;
    }
    true
}

/// Whether the value of the variable that disables startup actions (read by the caller from the
/// process environment) turns them off; see [`disables_startup_actions`].
pub fn startup_actions_disabled(value: Option<&str>) -> (disabled: bool)
    ensures
        disabled == match value {
            Some(value) => disables_startup_actions(value@),
            None => false,
        },
{
    match value {
        Some(value) => {
            proof {
                reveal_strlit("0");
                reveal_strlit("false");
            }
            value.unicode_len() > 0 && !str_eq_ignore_ascii_case(value, "0")
                && !str_eq_ignore_ascii_case(value, "false")
        },
        None => false,
    }
}

/// An action from the configuration (startup actions and key bindings).
#[derive(Clone, Debug, PartialEq, Eq)]
pub enum ConfiguredAction {
    CloseFocusedWindow,
    MoveFocusedWindow { x: isize, y: isize },
    ResizeFocusedWindow { width: u32, height: u32 },
    FocusTilingColumn { direction: HorizontalDirection },
    FocusTilingWindow { direction: VerticalDirection },
    MoveTilingColumn { direction: HorizontalDirection },
    MoveTilingWindow { direction: VerticalDirection },
    ConsumeIntoTilingColumn { direction: HorizontalDirection },
    ExpelFromTilingColumn { direction: HorizontalDirection },
    PanTilingViewport { direction: TilingPanDirection },
    BackgroundFocusedWindow { output: String },
    ClearFocusedWindowBackground,
    SwitchWorkspace { workspace: WorkspaceLookup },
    CreateWorkspace { workspace: WorkspaceLookup },
    DestroyWorkspace { workspace: WorkspaceLookup },
    EnableOutput { output: String },
    DisableOutput { output: String },
    ConfigureOutput { output: String, mode: String, scale: Option<u32> },
    PanViewport { delta_x: isize, delta_y: isize },
    MoveViewport { x: isize, y: isize },
    CenterViewportOnFocusedWindow,
    Exec { argv: Vec<String> },
}

/// Whether a character has the Unicode `White_Space` property (what `str::trim` strips).
pub open spec fn is_whitespace(c: char) -> bool {
    ('\u{9}' <= c <= '\u{d}') || c == ' ' || c == '\u{85}' || c == '\u{a0}' || c == '\u{1680}'
        || ('\u{2000}' <= c <= '\u{200a}') || c == '\u{2028}' || c == '\u{2029}' || c
        == '\u{202f}' || c == '\u{205f}' || c == '\u{3000}'
}

/// Whether a text is empty once surrounding whitespace is trimmed.
pub open spec fn blank(text: Seq<char>) -> bool {
    forall|i: int| 0 <= i < text.len() ==> is_whitespace(#[trigger] text[i])
}

/// Why a single action is invalid, if it is.
pub open spec fn action_error(action: ConfiguredAction) -> Option<Seq<char>> {
    match action {
        ConfiguredAction::Exec { argv } => if argv@.len() == 0 {
            Some("command action must include at least one argv element"@)
        } else if blank(argv@[0]@) {
            Some("command action must not start with an empty program"@)
        } else {
            None
        },
        _ => None,
    }
}

/// Index of the first invalid action at or after `from`.
pub open spec fn first_invalid_from(actions: Seq<ConfiguredAction>, from: int) -> Option<int>
    decreases actions.len() - from,
{
    if from < 0 || from >= actions.len() {
        None
    } else if action_error(actions[from]) is Some {
        Some(from)
    } else {
        first_invalid_from(actions, from + 1)
    }
}

/// Outcome of validating an action list: it must be non-empty, and the first invalid action
/// decides the error.
pub open spec fn validation_error(actions: Seq<ConfiguredAction>) -> Option<Seq<char>> {
    if actions.len() == 0 {
        Some("action sequence must contain at least one action"@)
    } else {
        match first_invalid_from(actions, 0) {
            Some(i) => action_error(actions[i]),
            None => None,
        }
    }
}

fn is_whitespace_char(c: char) -> (result: bool)
    ensures
        result == is_whitespace(c),
{
    ('\u{9}' <= c && c <= '\u{d}') || c == ' ' || c == '\u{85}' || c == '\u{a0}' || c
        == '\u{1680}' || ('\u{2000}' <= c && c <= '\u{200a}') || c == '\u{2028}' || c
        == '\u{2029}' || c == '\u{202f}' || c == '\u{205f}' || c == '\u{3000}'
}

fn is_blank(text: &String) -> (result: bool)
    ensures
        result == blank(text@),
{
    let chars = text.as_str();
    let n = chars.unicode_len();
    let mut i: usize = 0;
    while i < n
        invariant
            chars@ == text@,
            n == text@.len(),
            i <= n,
            forall|j: int| 0 <= j < i ==> is_whitespace(#[trigger] text@[j]),
        decreases n - i,
    {
        let c = chars.get_char(i);
        if !is_whitespace_char(c) {
            assert(!is_whitespace(text@[i as int]));
            return false;
        }
        i += 1;
    }
    true
}

fn validate_action(action: &ConfiguredAction) -> (result: Result<(), String>)
    ensures
        match result {
            Ok(()) => action_error(*action) is None,
            Err(message) => action_error(*action) == Some(message@),
        },
{
    match action {
        ConfiguredAction::Exec { argv } => {
            if argv.len() == 0 {
                return Err("command action must include at least one argv element".to_owned());
            }
            if is_blank(&argv[0]) {
                return Err("command action must not start with an empty program".to_owned());
            }
            Ok(())
        },
        _ => Ok(()),
    }
}

/// Validates one configured action list before it is compiled into runtime behaviour.
pub fn validate_action_sequence(actions: &Vec<ConfiguredAction>) -> (result: Result<(), String>)
    ensures
        match result {
            Ok(()) => validation_error(actions@) is None,
            Err(message) => validation_error(actions@) == Some(message@),
        },
{
    if actions.len() == 0 {
        return Err("action sequence must contain at least one action".to_owned());
    }
    let mut i: usize = 0;
    while i < actions.len()
        invariant
            0 < actions@.len(),
            i <= actions@.len(),
            first_invalid_from(actions@, 0) == first_invalid_from(actions@, i as int),
        decreases actions.len() - i,
    {
        match validate_action(&actions[i]) {
            Ok(()) => {},
            Err(message) => {
                return Err(message);
            },
        }
        i += 1;
    }
    Ok(())
}

/// What an action asks of the focused window.
#[derive(Clone, Debug, PartialEq, Eq)]
pub enum FocusedWindowOp {
    Close,
    MoveTo { x: isize, y: isize },
    ResizeTo { width: u32, height: u32 },
    BackgroundOn { output: String },
    ClearBackground,
}

/// The output an output operation addresses.
#[derive(Clone, Debug, PartialEq, Eq)]
pub enum OutputTarget {
    Named(String),
    Focused,
}

/// An operation on an output.
#[derive(Clone, Debug, PartialEq, Eq)]
pub enum OutputOp {
    Enable,
    Disable,
    Configure { mode: String, scale: Option<u32> },
    PanViewportBy { delta_x: isize, delta_y: isize },
    MoveViewportTo { x: isize, y: isize },
    CenterViewportOnWindow { surface_id: u64 },
}

/// What dispatching one configured action stages.
#[derive(Clone, Debug, PartialEq, Eq)]
pub enum ActionDispatch {
    Window { surface_id: u64, op: FocusedWindowOp },
    Tiling(TilingControl),
    Workspace(WorkspaceControl),
    Output { target: OutputTarget, op: OutputOp },
    /// A command line to launch.
    Exec { argv: Vec<String> },
    /// The action needs a focused window and there is none; it is logged and skipped.
    IgnoredNoFocus,
}

/// The selector naming the same workspace as a lookup.
pub open spec fn selector_of(lookup: WorkspaceLookup) -> WorkspaceSelector {
    match lookup {
        WorkspaceLookup::Id(id) => WorkspaceSelector::Id(id),
        WorkspaceLookup::Name(name) => WorkspaceSelector::Name(name),
    }
}

/// The focused-window operation an action asks for, if it is one.
pub open spec fn window_op(action: ConfiguredAction) -> Option<FocusedWindowOp> {
    match action {
        ConfiguredAction::CloseFocusedWindow => Some(FocusedWindowOp::Close),
        ConfiguredAction::MoveFocusedWindow { x, y } => Some(FocusedWindowOp::MoveTo { x, y }),
        ConfiguredAction::ResizeFocusedWindow { width, height } => Some(
            FocusedWindowOp::ResizeTo { width, height },
        ),
        ConfiguredAction::BackgroundFocusedWindow { output } => Some(
            FocusedWindowOp::BackgroundOn { output },
        ),
        ConfiguredAction::ClearFocusedWindowBackground => Some(FocusedWindowOp::ClearBackground),
        _ => None,
    }
}

/// Whether `result` is what dispatching `action` stages while `focused` has keyboard focus.
/// Window actions and centring the viewport need a focused window; the others do not.
pub open spec fn dispatched(action: ConfiguredAction, focused: Option<u64>, result: ActionDispatch) -> bool {
    match window_op(action) {
        Some(op) => match focused {
            Some(surface_id) => result == ActionDispatch::Window { surface_id, op },
            None => result == ActionDispatch::IgnoredNoFocus,
        },
        None => match action {
            ConfiguredAction::FocusTilingColumn { direction } => result == ActionDispatch::Tiling(
                TilingControl::FocusColumn { direction },
            ),
            ConfiguredAction::FocusTilingWindow { direction } => result == ActionDispatch::Tiling(
                TilingControl::FocusWindow { direction },
            ),
            ConfiguredAction::MoveTilingColumn { direction } => result == ActionDispatch::Tiling(
                TilingControl::MoveColumn { direction },
            ),
            ConfiguredAction::MoveTilingWindow { direction } => result == ActionDispatch::Tiling(
                TilingControl::MoveWindow { direction },
            ),
            ConfiguredAction::ConsumeIntoTilingColumn { direction } => result
                == ActionDispatch::Tiling(TilingControl::ConsumeIntoColumn { direction }),
            ConfiguredAction::ExpelFromTilingColumn { direction } => result
                == ActionDispatch::Tiling(TilingControl::ExpelFromColumn { direction }),
            ConfiguredAction::PanTilingViewport { direction } => result == ActionDispatch::Tiling(
                TilingControl::PanViewport { direction },
            ),
            ConfiguredAction::SwitchWorkspace { workspace } => result == ActionDispatch::Workspace(
                WorkspaceControl::SwitchOrCreate { target: workspace },
            ),
            ConfiguredAction::CreateWorkspace { workspace } => result == ActionDispatch::Workspace(
                WorkspaceControl::Create { target: workspace },
            ),
            ConfiguredAction::DestroyWorkspace { workspace } => result == ActionDispatch::Workspace(
                WorkspaceControl::Destroy { target: selector_of(workspace) },
            ),
            ConfiguredAction::EnableOutput { output } => result == ActionDispatch::Output {
                target: OutputTarget::Named(output),
                op: OutputOp::Enable,
            },
            ConfiguredAction::DisableOutput { output } => result == ActionDispatch::Output {
                target: OutputTarget::Named(output),
                op: OutputOp::Disable,
            },
            ConfiguredAction::ConfigureOutput { output, mode, scale } => result
                == ActionDispatch::Output {
                target: OutputTarget::Named(output),
                op: OutputOp::Configure { mode, scale },
            },
            ConfiguredAction::PanViewport { delta_x, delta_y } => result == ActionDispatch::Output {
                target: OutputTarget::Focused,
                op: OutputOp::PanViewportBy { delta_x, delta_y },
            },
            ConfiguredAction::MoveViewport { x, y } => result == ActionDispatch::Output {
                target: OutputTarget::Focused,
                op: OutputOp::MoveViewportTo { x, y },
            },
            ConfiguredAction::CenterViewportOnFocusedWindow => match focused {
                Some(surface_id) => result == ActionDispatch::Output {
                    target: OutputTarget::Focused,
                    op: OutputOp::CenterViewportOnWindow { surface_id },
                },
                None => result == ActionDispatch::IgnoredNoFocus,
            },
            ConfiguredAction::Exec { argv } => result matches ActionDispatch::Exec { argv: staged }
                && staged@ == argv@,
            _ => false,
        },
    }
}

fn clone_lookup(lookup: &WorkspaceLookup) -> (result: WorkspaceLookup)
    ensures
        result == *lookup,
{
    match lookup {
        WorkspaceLookup::Id(id) => WorkspaceLookup::Id(*id),
        WorkspaceLookup::Name(name) => WorkspaceLookup::Name(name.clone()),
    }
}

/// A copy of a command line.
pub fn clone_argv(argv: &Vec<String>) -> (result: Vec<String>)
    ensures
        result@ == argv@,
{
    let mut result: Vec<String> = Vec::new();
    let mut i: usize = 0;
    while i < argv.len()
        invariant
            i <= argv@.len(),
            result@ == argv@.take(i as int),
        decreases argv.len() - i,
    {
        result.push(argv[i].clone());
        i += 1;
        assert(result@ =~= argv@.take(i as int));
    }
    assert(argv@.take(i as int) =~= argv@);
    result
}

/// Turns one configured action into what it stages, given the window that has keyboard focus.
pub fn dispatch_configured_action(action: &ConfiguredAction, focused: Option<u64>) -> (result:
    ActionDispatch)
    ensures
        dispatched(*action, focused, result),
{
    match action {
        ConfiguredAction::CloseFocusedWindow => match focused {
            Some(surface_id) => ActionDispatch::Window { surface_id, op: FocusedWindowOp::Close },
            None => ActionDispatch::IgnoredNoFocus,
        },
        ConfiguredAction::MoveFocusedWindow { x, y } => match focused {
            Some(surface_id) => ActionDispatch::Window {
                surface_id,
                op: FocusedWindowOp::MoveTo { x: *x, y: *y },
            },
            None => ActionDispatch::IgnoredNoFocus,
        },
        ConfiguredAction::ResizeFocusedWindow { width, height } => match focused {
            Some(surface_id) => ActionDispatch::Window {
                surface_id,
                op: FocusedWindowOp::ResizeTo { width: *width, height: *height },
            },
            None => ActionDispatch::IgnoredNoFocus,
        },
        ConfiguredAction::FocusTilingColumn { direction } => ActionDispatch::Tiling(
            TilingControl::FocusColumn { direction: *direction },
        ),
        ConfiguredAction::FocusTilingWindow { direction } => ActionDispatch::Tiling(
            TilingControl::FocusWindow { direction: *direction },
        ),
        ConfiguredAction::MoveTilingColumn { direction } => ActionDispatch::Tiling(
            TilingControl::MoveColumn { direction: *direction },
        ),
        ConfiguredAction::MoveTilingWindow { direction } => ActionDispatch::Tiling(
            TilingControl::MoveWindow { direction: *direction },
        ),
        ConfiguredAction::ConsumeIntoTilingColumn { direction } => ActionDispatch::Tiling(
            TilingControl::ConsumeIntoColumn { direction: *direction },
        ),
        ConfiguredAction::ExpelFromTilingColumn { direction } => ActionDispatch::Tiling(
            TilingControl::ExpelFromColumn { direction: *direction },
        ),
        ConfiguredAction::PanTilingViewport { direction } => ActionDispatch::Tiling(
            TilingControl::PanViewport { direction: *direction },
        ),
        ConfiguredAction::BackgroundFocusedWindow { output } => match focused {
            Some(surface_id) => ActionDispatch::Window {
                surface_id,
                op: FocusedWindowOp::BackgroundOn { output: output.clone() },
            },
            None => ActionDispatch::IgnoredNoFocus,
        },
        ConfiguredAction::ClearFocusedWindowBackground => match focused {
            Some(surface_id) => ActionDispatch::Window {
                surface_id,
                op: FocusedWindowOp::ClearBackground,
            },
            None => ActionDispatch::IgnoredNoFocus,
        },
        ConfiguredAction::SwitchWorkspace { workspace } => ActionDispatch::Workspace(
            WorkspaceControl::SwitchOrCreate { target: clone_lookup(workspace) },
        ),
        ConfiguredAction::CreateWorkspace { workspace } => ActionDispatch::Workspace(
            WorkspaceControl::Create { target: clone_lookup(workspace) },
        ),
        ConfiguredAction::DestroyWorkspace { workspace } => {
            let target = match workspace {
                WorkspaceLookup::Id(id) => WorkspaceSelector::Id(*id),
                WorkspaceLookup::Name(name) => WorkspaceSelector::Name(name.clone()),
            };
            ActionDispatch::Workspace(WorkspaceControl::Destroy { target })
        },
        ConfiguredAction::EnableOutput { output } => ActionDispatch::Output {
            target: OutputTarget::Named(output.clone()),
            op: OutputOp::Enable,
        },
        ConfiguredAction::DisableOutput { output } => ActionDispatch::Output {
            target: OutputTarget::Named(output.clone()),
            op: OutputOp::Disable,
        },
        ConfiguredAction::ConfigureOutput { output, mode, scale } => ActionDispatch::Output {
            target: OutputTarget::Named(output.clone()),
            op: OutputOp::Configure { mode: mode.clone(), scale: *scale },
        },
        ConfiguredAction::PanViewport { delta_x, delta_y } => ActionDispatch::Output {
            target: OutputTarget::Focused,
            op: OutputOp::PanViewportBy { delta_x: *delta_x, delta_y: *delta_y },
        },
        ConfiguredAction::MoveViewport { x, y } => ActionDispatch::Output {
            target: OutputTarget::Focused,
            op: OutputOp::MoveViewportTo { x: *x, y: *y },
        },
        ConfiguredAction::CenterViewportOnFocusedWindow => match focused {
            Some(surface_id) => ActionDispatch::Output {
                target: OutputTarget::Focused,
                op: OutputOp::CenterViewportOnWindow { surface_id },
            },
            None => ActionDispatch::IgnoredNoFocus,
        },
        ConfiguredAction::Exec { argv } => ActionDispatch::Exec { argv: clone_argv(argv) },
    }
}

/// A request to launch one of several candidate command lines (the first that starts wins).
#[derive(Clone, Debug, PartialEq, Eq)]
pub struct ExternalCommandRequest {
    pub origin: String,
    pub candidates: Vec<Vec<String>>,
}

/// Queues one exact command line.
pub fn queue_exec_command(origin: String, argv: Vec<String>, pending: &mut Vec<ExternalCommandRequest>)
    ensures
        final(pending)@.len() == old(pending)@.len() + 1,
        final(pending)@.take(old(pending)@.len() as int) == old(pending)@,
        final(pending)@.last().origin == origin,
        final(pending)@.last().candidates@.len() == 1,
        final(pending)@.last().candidates@[0] == argv,
{
    let mut candidates: Vec<Vec<String>> = Vec::new();
    candidates.push(argv);
    pending.push(ExternalCommandRequest { origin, candidates });
    assert(final(pending)@.take(old(pending)@.len() as int) =~= old(pending)@);
}

/// How starting one candidate command line went.
pub enum SpawnAttempt {
    /// The process started, with this id.
    Started(u32),
    /// It could not be started; the error's message.
    Failed(String),
}

/// A candidate that was started (by its index), and how it went.
pub struct CandidateAttempt {
    pub candidate: usize,
    pub result: SpawnAttempt,
}

/// What launching one request came to.
pub enum LaunchOutcome {
    Launched(ExternalCommandLaunched),
    Failed(ExternalCommandFailed),
}

/// Words joined by single spaces.
pub open spec fn joined(words: Seq<String>) -> Seq<char>
    decreases words.len(),
{
    if words.len() == 0 {
        Seq::empty()
    } else if words.len() == 1 {
        words[0]@
    } else {
        joined(words.drop_last()) + " "@ + words.last()@
    }
}

/// Joins words with single spaces.
pub fn join_words(words: &Vec<String>) -> (text: String)
    ensures
        text@ == joined(words@),
{
    let mut text = String::new();
    let mut i: usize = 0;
    while i < words.len()
        invariant
            i <= words@.len(),
            text@ == joined(words@.take(i as int)),
        decreases words.len() - i,
    {
        proof {
            assert(words@.take(i + 1).drop_last() =~= words@.take(i as int));
            assert(words@.take(i + 1).last() == words@[i as int]);
        }
        if i > 0 {
            text.append(" ");
        } else {
            assert(text@ + words@[0]@ =~= words@[0]@);
        }
        text.append(words[i].as_str());
        i += 1;
    }
    assert(words@.take(i as int) =~= words@);
    text
}

/// Whether a candidate command line names a program.
pub open spec fn names_program(argv: Vec<String>) -> bool {
    argv@.len() > 0
}

/// Index of the next candidate at or after `from` that names a program: the launcher tries the
/// candidates in order, skipping empty ones, until one starts.
pub fn next_launch_candidate(request: &ExternalCommandRequest, from: usize) -> (next: Option<usize>)
    ensures
        match next {
            Some(k) => from <= k < request.candidates@.len() && names_program(request.candidates@[k as int])
                && forall|j: int| from <= j < k ==> !names_program(#[trigger] request.candidates@[j]),
            None => forall|j: int|
                from <= j < request.candidates@.len() ==> !names_program(#[trigger] request.candidates@[j]),
        },
{
    let mut k: usize = from;
    while k < request.candidates.len()
        invariant
            from <= k || k >= request.candidates@.len(),
            forall|j: int| from <= j < k ==> !names_program(#[trigger] request.candidates@[j]),
        decreases request.candidates.len() - k,
    {
        if request.candidates[k].len() > 0 {
            return Some(k);
        }
        k += 1;
    }
    None
}

/// Whether an attempt started its process.
pub open spec fn started(attempt: CandidateAttempt) -> bool {
    attempt.result is Started
}

/// Process id of a started attempt.
pub open spec fn started_pid(attempt: CandidateAttempt) -> u32 {
    match attempt.result {
        SpawnAttempt::Started(pid) => pid,
        SpawnAttempt::Failed(_) => 0,
    }
}

/// Index of the first attempt that started its process.
pub open spec fn first_started(attempts: Seq<CandidateAttempt>) -> Option<int> {
    first_index(attempts, |attempt: CandidateAttempt| started(attempt))
}

/// Index of the last attempt that failed.
pub open spec fn last_failed(attempts: Seq<CandidateAttempt>) -> Option<int>
    decreases attempts.len(),
{
    if attempts.len() == 0 {
        None
    } else if attempts.last().result is Failed {
        Some(attempts.len() - 1)
    } else {
        last_failed(attempts.drop_last())
    }
}

/// Error of a request none of whose candidates started: the last failure (the candidate's words
/// and the error message), else that there was nothing to start.
pub open spec fn launch_error(request: ExternalCommandRequest, attempts: Seq<CandidateAttempt>) -> Seq<char> {
    match last_failed(attempts) {
        Some(i) => joined(request.candidates@[attempts[i].candidate as int]@) + ": "@ + match attempts[i].result {
            SpawnAttempt::Failed(message) => message@,
            SpawnAttempt::Started(_) => Seq::empty(),
        },
        None => "ignored because no executable candidates were available"@,
    }
}

/// Detail of the input record of a launch.
pub open spec fn launched_detail(origin: Seq<char>, command: Seq<String>, pid: u32) -> Seq<char> {
    origin + " -> launched `"@ + joined(command) + "` (pid "@ + decimal(pid as nat) + ")"@
}

/// Decides what launching a request came to, given the attempts made in order (see
/// [`next_launch_candidate`]): the first attempt that started is reported launched, with its
/// command line and process id; else the request failed with [`launch_error`]. Either way an
/// input record from `commands` says so.
pub fn external_command_launch_outcome(
    request: &ExternalCommandRequest,
    attempts: &Vec<CandidateAttempt>,
) -> (result: (LaunchOutcome, InputEventRecord))
    requires
        forall|i: int| 0 <= i < attempts@.len() ==> (#[trigger] attempts@[i]).candidate < request.candidates@.len(),
    ensures
        result.1.source@ == "commands"@,
        match first_started(attempts@) {
            Some(i) => {
                let command = request.candidates@[attempts@[i].candidate as int]@;
                let pid = started_pid(attempts@[i]);
                &&& result.0 matches LaunchOutcome::Launched(event) && event.origin@ == request.origin@
                    && event.command@ == command && event.pid == pid
                &&& result.1.detail@ == launched_detail(request.origin@, command, pid)
            },
            None => {
                &&& result.0 matches LaunchOutcome::Failed(event) && event.origin@ == request.origin@
                    && argv_lists(event.candidates@) == argv_lists(request.candidates@) && event.error@
                    == launch_error(*request, attempts@)
                &&& result.1.detail@ == request.origin@ + " -> "@ + launch_error(*request, attempts@)
            },
        },
{
    let mut i: usize = 0;
    while i < attempts.len()
        invariant
            i <= attempts@.len(),
            forall|j: int| 0 <= j < attempts@.len() ==> (#[trigger] attempts@[j]).candidate < request.candidates@.len(),
            first_started(attempts@) == first_index_from(
                attempts@,
                |attempt: CandidateAttempt| started(attempt),
                i as int,
            ),
        decreases attempts.len() - i,
    {
        if let SpawnAttempt::Started(pid) = attempts[i].result {
            let c = attempts[i].candidate;
            let command = clone_argv(&request.candidates[c]);
            let words = join_words(&request.candidates[c]);
            let mut detail = request.origin.clone();
            detail.append(" -> launched `");
            detail.append(words.as_str());
            detail.append("` (pid ");
            let digits = u32_to_string(pid);
            detail.append(digits.as_str());
            detail.append(")");
            let event = ExternalCommandLaunched { origin: request.origin.clone(), command, pid };
            return (
                LaunchOutcome::Launched(event),
                InputEventRecord { source: "commands".to_owned(), detail },
            );
        }
        i += 1;
    }
    let error = failure_message(request, attempts);
    let mut detail = request.origin.clone();
    detail.append(" -> ");
    detail.append(error.as_str());
    let event = ExternalCommandFailed {
        origin: request.origin.clone(),
        candidates: clone_argv_lists(&request.candidates),
        error,
    };
    (LaunchOutcome::Failed(event), InputEventRecord { source: "commands".to_owned(), detail })
}

fn failure_message(request: &ExternalCommandRequest, attempts: &Vec<CandidateAttempt>) -> (error: String)
    requires
        forall|i: int| 0 <= i < attempts@.len() ==> (#[trigger] attempts@[i]).candidate < request.candidates@.len(),
    ensures
        error@ == launch_error(*request, attempts@),
{
    let mut i: usize = attempts.len();
    assert(attempts@.take(i as int) =~= attempts@);
    while i > 0
        invariant
            i <= attempts@.len(),
            forall|j: int| 0 <= j < attempts@.len() ==> (#[trigger] attempts@[j]).candidate < request.candidates@.len(),
            last_failed(attempts@) == last_failed(attempts@.take(i as int)),
        decreases i,
    {
        proof {
            assert(attempts@.take(i as int).drop_last() =~= attempts@.take(i - 1));
            assert(attempts@.take(i as int).last() == attempts@[i - 1]);
        }
        if let SpawnAttempt::Failed(message) = &attempts[i - 1].result {
            let c = attempts[i - 1].candidate;
            let mut error = join_words(&request.candidates[c]);
            error.append(": ");
            error.append(message.as_str());
            return error;
        }
        i -= 1;
    }
    "ignored because no executable candidates were available".to_owned()
}

/// Why startup actions did or did not run on this tick.
#[derive(Clone, Copy, Debug, PartialEq, Eq, Structural)]
pub enum StartupGate {
    /// They were evaluated earlier in this session.
    AlreadyQueued,
    /// The environment turned them off; they are marked as evaluated.
    DisabledByEnv,
    /// The nested socket is not up yet; try again later.
    AwaitingSocket,
    /// XWayland is enabled but not ready yet; try again later.
    AwaitingXwayland,
    /// They were evaluated and the configuration has none.
    NoActions,
    /// They were evaluated and dispatched.
    Dispatched,
}

/// What one tick of the startup-action system did.
#[derive(Clone, Debug, PartialEq, Eq)]
pub struct StartupOutcome {
    pub gate: StartupGate,
    /// What each configured action staged, in order.
    pub dispatched: Vec<ActionDispatch>,
    /// How many actions were applied (not ignored for want of focus).
    pub applied: usize,
}

/// Whether startup actions run on this tick, and why not when they do not.
pub open spec fn startup_gate(
    queued: bool,
    disabled_by_env: bool,
    ingress: WaylandIngress,
    action_count: int,
) -> StartupGate {
    if queued {
        StartupGate::AlreadyQueued
    } else if disabled_by_env {
        StartupGate::DisabledByEnv
    } else if ingress.protocol_server.socket_name is None {
        StartupGate::AwaitingSocket
    } else if ingress.xwayland_server.enabled && !ingress.xwayland_server.ready {
        StartupGate::AwaitingXwayland
    } else if action_count == 0 {
        StartupGate::NoActions
    } else {
        StartupGate::Dispatched
    }
}

/// Whether startup actions count as queued after one tick of the startup-action system; see
/// [`startup_action_queue_system`].
pub open spec fn queued_after(queued: bool, disabled_by_env: bool, ingress: WaylandIngress, action_count: int) -> bool {
    let gate = startup_gate(queued, disabled_by_env, ingress, action_count);
    queued || (gate != StartupGate::AwaitingSocket && gate != StartupGate::AwaitingXwayland)
}

/// Number of ticks, among a sequence of ticks (each the environment switch, the ingress state
/// and the number of configured actions), on which the startup actions were dispatched.
pub open spec fn startup_dispatches(queued: bool, ticks: Seq<(bool, WaylandIngress, int)>) -> int
    decreases ticks.len(),
{
    if ticks.len() == 0 {
        0
    } else {
        let (disabled, ingress, count) = ticks[0];
        (if startup_gate(queued, disabled, ingress, count) == StartupGate::Dispatched {
            1int
        } else {
            0int
        }) + startup_dispatches(queued_after(queued, disabled, ingress, count), ticks.drop_first())
    }
}

/// Startup actions are dispatched at most once over any sequence of ticks, and never once they
/// are queued.
pub proof fn law_startup_actions_dispatch_at_most_once(queued: bool, ticks: Seq<(bool, WaylandIngress, int)>)
    ensures
        0 <= startup_dispatches(queued, ticks) <= 1,
        queued ==> startup_dispatches(queued, ticks) == 0,
    decreases ticks.len(),
{
    if ticks.len() > 0 {
        let (disabled, ingress, count) = ticks[0];
        law_startup_actions_dispatch_at_most_once(
            queued_after(queued, disabled, ingress, count),
            ticks.drop_first(),
        );
    }
}

/// Number of actions among the first `n` dispatches that were applied.
pub open spec fn applied_count(dispatched: Seq<ActionDispatch>, n: int) -> int
    decreases n,
{
    if n <= 0 {
        0
    } else {
        applied_count(dispatched, n - 1) + if dispatched[n - 1] is IgnoredNoFocus {
            0int
        } else {
            1int
        }
    }
}

/// Evaluates the configured startup actions once the nested socket (and XWayland, when it is
/// enabled) is ready: at most once per session, and not at all when the environment disabled
/// them. `focused` is the window with keyboard focus while they are dispatched.
pub fn startup_action_queue_system(
    state: &mut StartupActionState,
    disabled_by_env: bool,
    ingress: &WaylandIngress,
    actions: &Vec<ConfiguredAction>,
    focused: Option<u64>,
) -> (outcome: StartupOutcome)
    ensures
        outcome.gate == startup_gate(old(state).queued, disabled_by_env, *ingress, actions@.len() as int),
        final(state).queued == (old(state).queued || (outcome.gate != StartupGate::AwaitingSocket
            && outcome.gate != StartupGate::AwaitingXwayland)),
        outcome.gate == StartupGate::Dispatched ==> outcome.dispatched@.len() == actions@.len()
            && (forall|i: int| 0 <= i < actions@.len() ==> dispatched(#[trigger] actions@[i], focused, outcome.dispatched@[i]))
            && outcome.applied == applied_count(outcome.dispatched@, actions@.len() as int),
        outcome.gate != StartupGate::Dispatched ==> outcome.dispatched@.len() == 0 && outcome.applied == 0,
{
    let mut dispatched_actions: Vec<ActionDispatch> = Vec::new();
    if state.queued {
        return StartupOutcome { gate: StartupGate::AlreadyQueued, dispatched: dispatched_actions, applied: 0 };
    }
    if disabled_by_env {
        state.queued = true;
        return StartupOutcome { gate: StartupGate::DisabledByEnv, dispatched: dispatched_actions, applied: 0 };
    }
    if ingress.protocol_server.socket_name.is_none() {
        return StartupOutcome { gate: StartupGate::AwaitingSocket, dispatched: dispatched_actions, applied: 0 };
    }
    if ingress.xwayland_server.enabled && !ingress.xwayland_server.ready {
        return StartupOutcome { gate: StartupGate::AwaitingXwayland, dispatched: dispatched_actions, applied: 0 };
    }
    state.queued = true;
    if actions.len() == 0 {
        return StartupOutcome { gate: StartupGate::NoActions, dispatched: dispatched_actions, applied: 0 };
    }
    let mut applied: usize = 0;
    let mut i: usize = 0;
    while i < actions.len()
        invariant
            i <= actions@.len(),
            dispatched_actions@.len() == i,
            forall|j: int| 0 <= j < i ==> dispatched(#[trigger] actions@[j], focused, dispatched_actions@[j]),
            applied == applied_count(dispatched_actions@, i as int),
            applied <= i,
        decreases actions.len() - i,
    {
        let result = dispatch_configured_action(&actions[i], focused);
        let ignored = matches!(result, ActionDispatch::IgnoredNoFocus);
        let ghost before = dispatched_actions@;
        dispatched_actions.push(result);
        proof {
            assert forall|j: int| 0 <= j < i implies dispatched_actions@[j] == before[j] by {}
            assert forall|k: int| 0 <= k <= i implies applied_count(dispatched_actions@, k)
                == applied_count(before, k) by {
                lemma_applied_count_prefix(before, dispatched_actions@, k);
            }
        }
        if !ignored {
            applied += 1;
        }
        i += 1;
    }
    StartupOutcome { gate: StartupGate::Dispatched, dispatched: dispatched_actions, applied }
}

proof fn lemma_applied_count_prefix(a: Seq<ActionDispatch>, b: Seq<ActionDispatch>, n: int)
    requires
        0 <= n <= a.len(),
        n <= b.len(),
        forall|j: int| 0 <= j < n ==> a[j] == b[j],
    ensures
        applied_count(a, n) == applied_count(b, n),
    decreases n,
{
    if n > 0 {
        lemma_applied_count_prefix(a, b, n - 1);
    }
}

/// How a launch attempt ended.
#[derive(Clone, Debug, PartialEq, Eq)]
pub enum CommandExecutionStatus {
    Launched { pid: u32 },
    Failed { error: String },
}

/// One entry of the command history.
#[derive(Clone, Debug, PartialEq, Eq)]
pub struct CommandExecutionRecord {
    pub frame: u64,
    pub uptime_millis: u64,
    pub origin: String,
    /// The command line that was launched, if one was.
    pub command: Option<Vec<String>>,
    /// The candidate command lines.
    pub candidates: Vec<Vec<String>>,
    pub status: Option<CommandExecutionStatus>,
}

/// The bounded command history, oldest first.
#[derive(Clone, Debug, PartialEq, Eq)]
pub struct CommandHistoryState {
    pub limit: usize,
    pub items: Vec<CommandExecutionRecord>,
}

/// A command that was launched.
#[derive(Clone, Debug, PartialEq, Eq)]
pub struct ExternalCommandLaunched {
    pub origin: String,
    pub command: Vec<String>,
    pub pid: u32,
}

/// A request none of whose candidates could be launched.
#[derive(Clone, Debug, PartialEq, Eq)]
pub struct ExternalCommandFailed {
    pub origin: String,
    pub candidates: Vec<Vec<String>>,
    pub error: String,
}

/// A history record by its contents.
pub struct RecordView {
    pub frame: u64,
    pub uptime_millis: u64,
    pub origin: String,
    pub command: Option<Seq<String>>,
    pub candidates: Seq<Seq<String>>,
    pub status: Option<CommandExecutionStatus>,
}

/// Command lines by their contents.
pub open spec fn argv_lists(lists: Seq<Vec<String>>) -> Seq<Seq<String>> {
    lists.map_values(|argv: Vec<String>| argv@)
}

/// A record by its contents.
pub open spec fn record_view(record: CommandExecutionRecord) -> RecordView {
    RecordView {
        frame: record.frame,
        uptime_millis: record.uptime_millis,
        origin: record.origin,
        command: match record.command {
            Some(argv) => Some(argv@),
            None => None,
        },
        candidates: argv_lists(record.candidates@),
        status: record.status,
    }
}

/// The records of a history, oldest first.
pub open spec fn history_view(items: Seq<CommandExecutionRecord>) -> Seq<RecordView> {
    items.map_values(|record: CommandExecutionRecord| record_view(record))
}

/// The record of a launched command.
pub open spec fn launched_record(frame: u64, uptime_millis: u64, event: ExternalCommandLaunched) -> RecordView {
    RecordView {
        frame,
        uptime_millis,
        origin: event.origin,
        command: Some(event.command@),
        candidates: seq![event.command@],
        status: Some(CommandExecutionStatus::Launched { pid: event.pid }),
    }
}

/// The record of a failed request.
pub open spec fn failed_record(frame: u64, uptime_millis: u64, event: ExternalCommandFailed) -> RecordView {
    RecordView {
        frame,
        uptime_millis,
        origin: event.origin,
        command: None,
        candidates: argv_lists(event.candidates@),
        status: Some(CommandExecutionStatus::Failed { error: event.error }),
    }
}

/// The newest `limit` records of a sequence.
pub open spec fn newest(records: Seq<RecordView>, limit: int) -> Seq<RecordView> {
    if records.len() > limit {
        records.skip(records.len() - limit)
    } else {
        records
    }
}

fn clone_argv_lists(lists: &Vec<Vec<String>>) -> (result: Vec<Vec<String>>)
    ensures
        argv_lists(result@) == argv_lists(lists@),
{
    let mut result: Vec<Vec<String>> = Vec::new();
    let mut i: usize = 0;
    while i < lists.len()
        invariant
            i <= lists@.len(),
            argv_lists(result@) == argv_lists(lists@.take(i as int)),
            result@.len() == i,
        decreases lists.len() - i,
    {
        let ghost before = result@;
        result.push(clone_argv(&lists[i]));
        i += 1;
        assert(argv_lists(result@) =~= argv_lists(lists@.take(i as int))) by {
            assert forall|k: int| 0 <= k < i - 1 implies #[trigger] result@[k]@ == lists@[k]@ by {
                assert(argv_lists(before)[k] == argv_lists(lists@.take(i - 1))[k]);
            }
        }
    }
    assert(lists@.take(i as int) =~= lists@);
    result
}

fn push_record(history: &mut CommandHistoryState, record: CommandExecutionRecord)
    ensures
        final(history).limit == old(history).limit,
        history_view(final(history).items@) == newest(
            history_view(old(history).items@).push(record_view(record)),
            old(history).limit as int,
        ),
        final(history).items@.len() <= final(history).limit,
{
    let ghost before = history_view(history.items@);
    history.items.push(record);
    let ghost pushed = history_view(history.items@);
    assert(pushed =~= before.push(record_view(record)));
    while history.items.len() > history.limit
        invariant
            history.limit == old(history).limit,
            history_view(history.items@) == pushed.skip(pushed.len() - history.items@.len()),
            history.items@.len() <= pushed.len(),
            pushed.len() > history.limit ==> history.items@.len() >= history.limit,
            pushed.len() <= history.limit ==> history.items@.len() == pushed.len(),
        decreases history.items.len(),
    {
        let ghost current = history.items@;
        history.items.remove(0);
        assert(history_view(history.items@) =~= pushed.skip(pushed.len() - history.items@.len())) by {
            assert(history_view(history.items@) =~= history_view(current).skip(1));
        }
    }
    assert(history_view(history.items@) =~= newest(pushed, old(history).limit as int));
}

/// Folds launch and failure messages into the bounded command history: the limit follows the
/// configuration (dropping the oldest records that no longer fit), then each launch and each
/// failure is recorded, launches first, keeping only the newest `limit` records.
pub fn command_history_system(
    config_limit: usize,
    frame: u64,
    uptime_millis: u64,
    launched: &Vec<ExternalCommandLaunched>,
    failed: &Vec<ExternalCommandFailed>,
    history: &mut CommandHistoryState,
)
    ensures
        final(history).limit == config_limit,
        old(history).limit != config_limit || old(history).items@.len() <= old(history).limit
            ==> history_view(final(history).items@) == newest(
            history_view(old(history).items@) + launched@.map_values(
                |event: ExternalCommandLaunched| launched_record(frame, uptime_millis, event),
            ) + failed@.map_values(
                |event: ExternalCommandFailed| failed_record(frame, uptime_millis, event),
            ),
            config_limit as int,
        ),
        old(history).limit != config_limit || old(history).items@.len() <= old(history).limit
            ==> final(history).items@.len() <= config_limit,
{
    let ghost all_old = history_view(history.items@);
    let well_formed = history.limit != config_limit || history.items.len() <= history.limit;
    if history.limit != config_limit {
        history.limit = config_limit;
        if history.limit == 0 {
            history.items.clear();
        } else if history.items.len() > history.limit {
            let overflow = history.items.len() - history.limit;
            let kept = history.items.split_off(overflow);
            history.items = kept;
        }
        assert(history_view(history.items@) =~= newest(all_old, config_limit as int));
    } else {
        assert(well_formed ==> newest(all_old, config_limit as int) =~= all_old);
    }
    let ghost launched_views = launched@.map_values(
        |event: ExternalCommandLaunched| launched_record(frame, uptime_millis, event),
    );
    let mut i: usize = 0;
    while i < launched.len()
        invariant
            i <= launched@.len(),
            history.limit == config_limit,
            well_formed ==> history.items@.len() <= history.limit,
            well_formed == (old(history).limit != config_limit || old(history).items@.len()
                <= old(history).limit),
            launched_views == launched@.map_values(
                |event: ExternalCommandLaunched| launched_record(frame, uptime_millis, event),
            ),
            well_formed ==> history_view(history.items@) == newest(all_old + launched_views.take(i as int), config_limit as int),
        decreases launched.len() - i,
    {
        let event = &launched[i];
        let command = clone_argv(&event.command);
        let mut candidates: Vec<Vec<String>> = Vec::new();
        candidates.push(clone_argv(&event.command));
        let record = CommandExecutionRecord {
            frame,
            uptime_millis,
            origin: event.origin.clone(),
            command: Some(command),
            candidates,
            status: Some(CommandExecutionStatus::Launched { pid: event.pid }),
        };
        assert(record_view(record) == launched_views[i as int]) by {
            assert(argv_lists(record.candidates@) =~= seq![event.command@]);
        }
        let ghost prefix = all_old + launched_views.take(i as int);
        push_record(history, record);
        i += 1;
        proof {
            lemma_newest_push(prefix, launched_views[i - 1], config_limit as int);
            assert(history.items@.len() <= history.limit);
            assert(prefix.push(launched_views[i - 1]) =~= all_old + launched_views.take(i as int));
        }
    }
    assert(launched_views.take(i as int) =~= launched_views);
    let ghost failed_views = failed@.map_values(
        |event: ExternalCommandFailed| failed_record(frame, uptime_millis, event),
    );
    let mut j: usize = 0;
    while j < failed.len()
        invariant
            j <= failed@.len(),
            history.limit == config_limit,
            well_formed ==> history.items@.len() <= history.limit,
            well_formed == (old(history).limit != config_limit || old(history).items@.len()
                <= old(history).limit),
            failed_views == failed@.map_values(
                |event: ExternalCommandFailed| failed_record(frame, uptime_millis, event),
            ),
            well_formed ==> history_view(history.items@) == newest(
                all_old + launched_views + failed_views.take(j as int),
                config_limit as int,
            ),
        decreases failed.len() - j,
    {
        let event = &failed[j];
        let record = CommandExecutionRecord {
            frame,
            uptime_millis,
            origin: event.origin.clone(),
            command: None,
            candidates: clone_argv_lists(&event.candidates),
            status: Some(CommandExecutionStatus::Failed { error: event.error.clone() }),
        };
        assert(record_view(record) == failed_views[j as int]);
        let ghost prefix = all_old + launched_views + failed_views.take(j as int);
        push_record(history, record);
        j += 1;
        proof {
            lemma_newest_push(prefix, failed_views[j - 1], config_limit as int);
            assert(prefix.push(failed_views[j - 1]) =~= all_old + launched_views + failed_views.take(j as int));
        }
    }
    assert(failed_views.take(j as int) =~= failed_views);
}

/// Keeping the newest records, then adding one and keeping the newest again, is keeping the
/// newest of the whole.
proof fn lemma_newest_push(records: Seq<RecordView>, record: RecordView, limit: int)
    requires
        limit >= 0,
    ensures
        newest(newest(records, limit).push(record), limit) == newest(records.push(record), limit),
{
    assert(newest(newest(records, limit).push(record), limit) =~= newest(records.push(record), limit));
}

/// The command history never holds more records than its limit, and the newest record is last.
pub proof fn law_history_is_bounded(records: Seq<RecordView>, record: RecordView, limit: int)
    requires
        limit > 0,
    ensures
        newest(records.push(record), limit).len() <= limit,
        newest(records.push(record), limit).last() == record,
{
}

/// Id of the shortcut that asks the compositor to quit.
pub open spec fn system_quit_shortcut_id() -> Seq<char> {
    "system.quit"@
}

/// Registers the shortcuts the command subsystem owns: the quit shortcut.
pub fn register_shortcuts(registry: &mut ShortcutRegistry)
    requires
        !has_id(old(registry).view(), system_quit_shortcut_id()),
    ensures
        final(registry).view() == old(registry).view().push(
            ShortcutView {
                id: "system.quit"@,
                owner: "system"@,
                description: "Request orderly compositor shutdown"@,
                default_binding: "Super+Shift+Q"@,
                trigger: ShortcutTrigger::Press,
            },
        ),
        ids_unique(old(registry).view()) ==> ids_unique(final(registry).view()),
{
    register_builtin(
        registry,
        "system.quit",
        "system",
        "Request orderly compositor shutdown",
        "Super+Shift+Q",
        ShortcutTrigger::Press,
    );
}

} // verus!

//! Sequencing of XDG configure-related requests once the toplevel exists: configure acks,
//! interactive move/resize grabs, and maximize / fullscreen / minimize transitions.

#[allow(unused_imports)]
use vstd::prelude::*;
use crate::model::{WindowLayout, WindowMode, WindowSceneGeometry};
use crate::search::{first_index, first_index_from, lemma_first_index_bounds};
use crate::window_policy::{
    law_enter_then_restore_round_trips, law_reentering_same_mode_keeps_restore_point, entered, enter_temporary_window_mode, lock_window_policy, restore_window_state, restored,
    TemporaryModeState, WindowFullscreenTarget, WindowPolicy, WindowPolicyState,
    WindowRestoreSnapshot,
};

verus! {

/// Edges an interactive resize drags.
#[derive(Clone, Copy, Debug, PartialEq, Eq, Structural)]
pub enum ResizeEdges {
    NoEdge,
    Top,
    Bottom,
    Left,
    TopLeft,
    BottomLeft,
    Right,
    TopRight,
    BottomRight,
}

impl ResizeEdges {
    /// Whether the left edge is dragged.
    pub open spec fn spec_has_left(self) -> bool {
        self is Left || self is TopLeft || self is BottomLeft
    }

    /// Whether the right edge is dragged.
    pub open spec fn spec_has_right(self) -> bool {
        self is Right || self is TopRight || self is BottomRight
    }

    /// Whether the top edge is dragged.
    pub open spec fn spec_has_top(self) -> bool {
        self is Top || self is TopLeft || self is TopRight
    }

    /// Whether the bottom edge is dragged.
    pub open spec fn spec_has_bottom(self) -> bool {
        self is Bottom || self is BottomLeft || self is BottomRight
    }

    /// Whether the left edge is dragged.
    pub fn has_left(&self) -> (result: bool)
        ensures
            result == self.spec_has_left(),
    {
        matches!(self, ResizeEdges::Left | ResizeEdges::TopLeft | ResizeEdges::BottomLeft)
    }

    /// Whether the right edge is dragged.
    pub fn has_right(&self) -> (result: bool)
        ensures
            result == self.spec_has_right(),
    {
        matches!(self, ResizeEdges::Right | ResizeEdges::TopRight | ResizeEdges::BottomRight)
    }

    /// Whether the top edge is dragged.
    pub fn has_top(&self) -> (result: bool)
        ensures
            result == self.spec_has_top(),
    {
        matches!(self, ResizeEdges::Top | ResizeEdges::TopLeft | ResizeEdges::TopRight)
    }

    /// Whether the bottom edge is dragged.
    pub fn has_bottom(&self) -> (result: bool)
        ensures
            result == self.spec_has_bottom(),
    {
        matches!(self, ResizeEdges::Bottom | ResizeEdges::BottomLeft | ResizeEdges::BottomRight)
    }
}

/// Interactive grab mode applied to a floating window.
#[derive(Clone, Copy, Debug, PartialEq, Eq, Structural)]
pub enum WindowGrabMode {
    Move,
    Resize { edges: ResizeEdges },
}

/// A grab to begin at the current pointer position, with the window geometry it starts from.
#[derive(Clone, Copy, Debug, PartialEq, Eq, Structural)]
pub struct GrabStart {
    pub surface_id: u64,
    pub mode: WindowGrabMode,
    pub start_scene_geometry: WindowSceneGeometry,
}

/// Role of an XDG surface.
#[derive(Clone, Copy, Debug, PartialEq, Eq, Structural)]
pub enum XdgSurfaceRole {
    Toplevel,
    Popup,
}

/// Lifecycle request of an XDG surface that the configure sequencing handles; requests of other
/// kinds are `Other` and are kept for the systems that handle them.
#[derive(Clone, Debug, PartialEq, Eq)]
pub enum ConfigureAction {
    ConfigureRequested { role: XdgSurfaceRole },
    AckConfigure { role: XdgSurfaceRole, serial: u32 },
    InteractiveMove { seat_id: u64, serial: u32 },
    InteractiveResize { seat_id: u64, serial: u32, edges: ResizeEdges },
    Maximize,
    UnMaximize,
    Fullscreen { output_name: Option<String> },
    UnFullscreen,
    Minimize,
    Other,
}

/// One lifecycle request for a surface.
#[derive(Clone, Debug, PartialEq, Eq)]
pub struct ConfigureRequest {
    pub surface_id: u64,
    pub action: ConfigureAction,
}

/// A toplevel window as configure sequencing sees it.
pub struct ConfigureWindow {
    pub surface_id: u64,
    pub output_background: bool,
    /// Whether the window carries XDG metadata (acks are recorded there).
    pub xdg_metadata: bool,
    pub last_acked_configure: Option<u32>,
    pub layout: WindowLayout,
    pub mode: WindowMode,
    pub policy: WindowPolicyState,
    pub scene_geometry: WindowSceneGeometry,
    pub fullscreen_target: WindowFullscreenTarget,
    pub restore: WindowRestoreSnapshot,
}

/// A popup as configure sequencing sees it.
#[derive(Clone, Copy, Debug, PartialEq, Eq, Structural)]
pub struct ConfigurePopup {
    pub surface_id: u64,
    pub configure_serial: Option<u32>,
}

/// Mathematical value of a [`ConfigureWindow`]: its fields, with the restore frames as a
/// sequence.
pub struct ConfigureWindowView {
    pub surface_id: u64,
    pub output_background: bool,
    pub xdg_metadata: bool,
    pub last_acked_configure: Option<u32>,
    pub layout: WindowLayout,
    pub mode: WindowMode,
    pub policy: WindowPolicyState,
    pub scene_geometry: WindowSceneGeometry,
    pub fullscreen_output: Option<String>,
    pub frames: Seq<crate::window_policy::WindowRestoreState>,
}

impl View for ConfigureWindow {
    type V = ConfigureWindowView;

    open spec fn view(&self) -> ConfigureWindowView {
        ConfigureWindowView {
            surface_id: self.surface_id,
            output_background: self.output_background,
            xdg_metadata: self.xdg_metadata,
            last_acked_configure: self.last_acked_configure,
            layout: self.layout,
            mode: self.mode,
            policy: self.policy,
            scene_geometry: self.scene_geometry,
            fullscreen_output: self.fullscreen_target.output,
            frames: self.restore.frames@,
        }
    }
}

/// The temporary-mode part of a window.
pub open spec fn mode_state(window: ConfigureWindowView) -> TemporaryModeState {
    TemporaryModeState {
        scene_geometry: window.scene_geometry,
        fullscreen_output: window.fullscreen_output,
        frames: window.frames,
        layout: window.layout,
        mode: window.mode,
    }
}

/// A window with its temporary-mode part replaced.
pub open spec fn with_mode_state(window: ConfigureWindowView, state: TemporaryModeState) -> ConfigureWindowView {
    ConfigureWindowView {
        scene_geometry: state.scene_geometry,
        fullscreen_output: state.fullscreen_output,
        frames: state.frames,
        layout: state.layout,
        mode: state.mode,
        ..window
    }
}

/// Effect of one request on its window, keyboard focus and grab.
pub struct WindowRequestStep {
    pub window: ConfigureWindowView,
    pub focus: Option<u64>,
    pub grab: Option<GrabStart>,
}

/// Window after an interactive grab begins: floating and normal, with that policy pinned.
pub open spec fn grabbed(window: ConfigureWindowView) -> ConfigureWindowView {
    ConfigureWindowView {
        layout: WindowLayout::Floating,
        mode: WindowMode::Normal,
        policy: WindowPolicyState {
            applied: WindowPolicy { layout: WindowLayout::Floating, mode: WindowMode::Normal },
            locked: true,
        },
        ..window
    }
}

/// What a request does to the window it addresses:
///  - a toplevel ack is recorded when the window has XDG metadata;
///  - an interactive move/resize (ignored for output backgrounds) makes the window floating and
///    normal with that policy pinned, focuses it and begins the grab;
///  - maximize and fullscreen enter the temporary mode (fullscreen pinned to the requested
///    output) and focus the window; unmaximize and unfullscreen restore;
///  - minimize hides the window and drops its keyboard focus.
pub open spec fn window_request_step(
    window: ConfigureWindowView,
    action: ConfigureAction,
    focus: Option<u64>,
    grab: Option<GrabStart>,
) -> WindowRequestStep {
    let surface = window.surface_id;
    let unchanged = WindowRequestStep { window, focus, grab };
    match action {
        ConfigureAction::AckConfigure { role: XdgSurfaceRole::Toplevel, serial } => if window.xdg_metadata {
            WindowRequestStep {
                window: ConfigureWindowView { last_acked_configure: Some(serial), ..window },
                focus,
                grab,
            }
        } else {
            unchanged
        },
        ConfigureAction::InteractiveMove { .. } => if window.output_background {
            unchanged
        } else {
            WindowRequestStep {
                window: grabbed(window),
                focus: Some(surface),
                grab: Some(
                    GrabStart {
                        surface_id: surface,
                        mode: WindowGrabMode::Move,
                        start_scene_geometry: window.scene_geometry,
                    },
                ),
            }
        },
        ConfigureAction::InteractiveResize { edges, .. } => if window.output_background {
            unchanged
        } else {
            WindowRequestStep {
                window: grabbed(window),
                focus: Some(surface),
                grab: Some(
                    GrabStart {
                        surface_id: surface,
                        mode: WindowGrabMode::Resize { edges },
                        start_scene_geometry: window.scene_geometry,
                    },
                ),
            }
        },
        ConfigureAction::Maximize => WindowRequestStep {
            window: with_mode_state(window, entered(mode_state(window), WindowMode::Maximized, None)),
            focus: Some(surface),
            grab,
        },
        ConfigureAction::Fullscreen { output_name } => WindowRequestStep {
            window: with_mode_state(
                window,
                entered(mode_state(window), WindowMode::Fullscreen, output_name),
            ),
            focus: Some(surface),
            grab,
        },
        ConfigureAction::UnMaximize | ConfigureAction::UnFullscreen => WindowRequestStep {
            window: with_mode_state(window, restored(mode_state(window), window.policy.applied)),
            focus,
            grab,
        },
        ConfigureAction::Minimize => WindowRequestStep {
            window: ConfigureWindowView { mode: WindowMode::Hidden, ..window },
            focus: if focus == Some(surface) {
                None
            } else {
                focus
            },
            grab,
        },
        _ => unchanged,
    }
}

/// Applies one request to the window it addresses; see [`window_request_step`]. The restore
/// frames after a temporary-mode change are those the mode state gives.
pub fn apply_window_request(
    window: &mut ConfigureWindow,
    action: &ConfigureAction,
    focus: &mut Option<u64>,
    grab: &mut Option<GrabStart>,
)
    ensures
        ({
            let step = window_request_step(old(window)@, *action, *old(focus), *old(grab));
            &&& *final(focus) == step.focus
            &&& *final(grab) == step.grab
            &&& final(window)@ == step.window
        }),
{
    let surface = window.surface_id;
    match action {
        ConfigureAction::AckConfigure { role: XdgSurfaceRole::Toplevel, serial } => {
            if window.xdg_metadata {
                window.last_acked_configure = Some(*serial);
            }
        },
        ConfigureAction::InteractiveMove { .. } => {
            if !window.output_background {
                window.layout = WindowLayout::Floating;
                window.mode = WindowMode::Normal;
                lock_window_policy(window.layout, window.mode, &mut window.policy);
                *focus = Some(surface);
                *grab = Some(
                    GrabStart {
                        surface_id: surface,
                        mode: WindowGrabMode::Move,
                        start_scene_geometry: window.scene_geometry,
                    },
                );
            }
        },
        ConfigureAction::InteractiveResize { edges, .. } => {
            if !window.output_background {
                window.layout = WindowLayout::Floating;
                window.mode = WindowMode::Normal;
                lock_window_policy(window.layout, window.mode, &mut window.policy);
                *focus = Some(surface);
                *grab = Some(
                    GrabStart {
                        surface_id: surface,
                        mode: WindowGrabMode::Resize { edges: *edges },
                        start_scene_geometry: window.scene_geometry,
                    },
                );
            }
        },
        ConfigureAction::Maximize => {
            let scene = window.scene_geometry;
            enter_temporary_window_mode(
                &scene,
                &mut window.fullscreen_target,
                &mut window.restore,
                window.layout,
                &mut window.mode,
                WindowMode::Maximized,
                None,
            );
            *focus = Some(surface);
        },
        ConfigureAction::Fullscreen { output_name } => {
            let scene = window.scene_geometry;
            let target = crate::window_policy::clone_output_name(output_name);
            enter_temporary_window_mode(
                &scene,
                &mut window.fullscreen_target,
                &mut window.restore,
                window.layout,
                &mut window.mode,
                WindowMode::Fullscreen,
                target,
            );
            *focus = Some(surface);
        },
        ConfigureAction::UnMaximize | ConfigureAction::UnFullscreen => {
            let policy = window.policy;
            restore_window_state(
                &policy,
                &mut window.scene_geometry,
                &mut window.fullscreen_target,
                &mut window.restore,
                &mut window.layout,
                &mut window.mode,
            );
        },
        ConfigureAction::Minimize => {
            window.mode = WindowMode::Hidden;
            if *focus == Some(surface) {
                *focus = None;
            }
        },
        _ => {},
    }
}

/// Values of a sequence of windows.
pub open spec fn windows_view(windows: Seq<ConfigureWindow>) -> Seq<ConfigureWindowView> {
    windows.map_values(|window: ConfigureWindow| window@)
}

/// Window view with a given surface id.
pub open spec fn window_view_with(surface_id: u64) -> spec_fn(ConfigureWindowView) -> bool {
    |window: ConfigureWindowView| window.surface_id == surface_id
}

/// Popup with a given surface id.
pub open spec fn popup_with(surface_id: u64) -> spec_fn(ConfigurePopup) -> bool {
    |popup: ConfigurePopup| popup.surface_id == surface_id
}

/// Whether a request addresses a toplevel window.
pub open spec fn addresses_window(action: ConfigureAction) -> bool {
    match action {
        ConfigureAction::AckConfigure { role: XdgSurfaceRole::Toplevel, .. } => true,
        ConfigureAction::InteractiveMove { .. } => true,
        ConfigureAction::InteractiveResize { .. } => true,
        ConfigureAction::Maximize => true,
        ConfigureAction::UnMaximize => true,
        ConfigureAction::Fullscreen { .. } => true,
        ConfigureAction::UnFullscreen => true,
        ConfigureAction::Minimize => true,
        _ => false,
    }
}

/// State of configure sequencing over a run of requests.
pub struct ConfigureRun {
    pub windows: Seq<ConfigureWindowView>,
    pub popups: Seq<ConfigurePopup>,
    pub focus: Option<u64>,
    pub grab: Option<GrabStart>,
    pub deferred: Seq<ConfigureRequest>,
}

/// One request of a run: a toplevel configure request is only noted; a popup ack sets the
/// popup's configure serial; a window request applies to the first window with its surface; a
/// request whose surface has no window or popup yet, and any other request, is kept for later.
pub open spec fn configure_run_step(run: ConfigureRun, request: ConfigureRequest) -> ConfigureRun {
    match request.action {
        ConfigureAction::ConfigureRequested { role: XdgSurfaceRole::Toplevel } => run,
        ConfigureAction::AckConfigure { role: XdgSurfaceRole::Popup, serial } => match first_index(
            run.popups,
            popup_with(request.surface_id),
        ) {
            Some(i) => ConfigureRun {
                popups: run.popups.update(
                    i,
                    ConfigurePopup { configure_serial: Some(serial), ..run.popups[i] },
                ),
                ..run
            },
            None => ConfigureRun { deferred: run.deferred.push(request), ..run },
        },
        _ => if addresses_window(request.action) {
            match first_index(run.windows, window_view_with(request.surface_id)) {
                Some(i) => {
                    let step = window_request_step(run.windows[i], request.action, run.focus, run.grab);
                    ConfigureRun {
                        windows: run.windows.update(i, step.window),
                        focus: step.focus,
                        grab: step.grab,
                        ..run
                    }
                },
                None => ConfigureRun { deferred: run.deferred.push(request), ..run },
            }
        } else {
            ConfigureRun { deferred: run.deferred.push(request), ..run }
        },
    }
}

/// Outcome of a run of requests, in order.
pub open spec fn configure_run(run: ConfigureRun, requests: Seq<ConfigureRequest>) -> ConfigureRun
    decreases requests.len(),
{
    if requests.len() == 0 {
        run
    } else {
        configure_run_step(configure_run(run, requests.drop_last()), requests.last())
    }
}

fn clone_request(request: &ConfigureRequest) -> (copy: ConfigureRequest)
    ensures
        copy == *request,
{
    let action = match &request.action {
        ConfigureAction::ConfigureRequested { role } => ConfigureAction::ConfigureRequested {
            role: *role,
        },
        ConfigureAction::AckConfigure { role, serial } => ConfigureAction::AckConfigure {
            role: *role,
            serial: *serial,
        },
        ConfigureAction::InteractiveMove { seat_id, serial } => ConfigureAction::InteractiveMove {
            seat_id: *seat_id,
            serial: *serial,
        },
        ConfigureAction::InteractiveResize { seat_id, serial, edges } =>
            ConfigureAction::InteractiveResize { seat_id: *seat_id, serial: *serial, edges: *edges },
        ConfigureAction::Maximize => ConfigureAction::Maximize,
        ConfigureAction::UnMaximize => ConfigureAction::UnMaximize,
        ConfigureAction::Fullscreen { output_name } => ConfigureAction::Fullscreen {
            output_name: crate::window_policy::clone_output_name(output_name),
        },
        ConfigureAction::UnFullscreen => ConfigureAction::UnFullscreen,
        ConfigureAction::Minimize => ConfigureAction::Minimize,
        ConfigureAction::Other => ConfigureAction::Other,
    };
    ConfigureRequest { surface_id: request.surface_id, action }
}

fn find_configure_window(windows: &Vec<ConfigureWindow>, surface_id: u64) -> (index: Option<usize>)
    ensures
        match index {
            Some(i) => first_index(windows_view(windows@), window_view_with(surface_id)) == Some(
                i as int,
            ),
            None => first_index(windows_view(windows@), window_view_with(surface_id)) is None,
        },
{
    let ghost view = windows_view(windows@);
    let mut i: usize = 0;
    while i < windows.len()
        invariant
            i <= windows@.len(),
            view == windows_view(windows@),
            first_index(view, window_view_with(surface_id)) == first_index_from(
                view,
                window_view_with(surface_id),
                i as int,
            ),
        decreases windows.len() - i,
    {
        if windows[i].surface_id == surface_id {
            return Some(i);
        }
        i += 1;
    }
    None
}

fn find_configure_popup(popups: &Vec<ConfigurePopup>, surface_id: u64) -> (index: Option<usize>)
    ensures
        match index {
            Some(i) => first_index(popups@, popup_with(surface_id)) == Some(i as int),
            None => first_index(popups@, popup_with(surface_id)) is None,
        },
{
    let mut i: usize = 0;
    while i < popups.len()
        invariant
            i <= popups@.len(),
            first_index(popups@, popup_with(surface_id)) == first_index_from(
                popups@,
                popup_with(surface_id),
                i as int,
            ),
        decreases popups.len() - i,
    {
        if popups[i].surface_id == surface_id {
            return Some(i);
        }
        i += 1;
    }
    None
}

fn addresses_window_exec(action: &ConfigureAction) -> (result: bool)
    ensures
        result == addresses_window(*action),
{
    match action {
        ConfigureAction::AckConfigure { role: XdgSurfaceRole::Toplevel, .. } => true,
        ConfigureAction::InteractiveMove { .. } => true,
        ConfigureAction::InteractiveResize { .. } => true,
        ConfigureAction::Maximize => true,
        ConfigureAction::UnMaximize => true,
        ConfigureAction::Fullscreen { .. } => true,
        ConfigureAction::UnFullscreen => true,
        ConfigureAction::Minimize => true,
        _ => false,
    }
}

proof fn lemma_configure_run_append(
    run: ConfigureRun,
    first: Seq<ConfigureRequest>,
    second: Seq<ConfigureRequest>,
)
    ensures
        configure_run(run, first + second) == configure_run(configure_run(run, first), second),
    decreases second.len(),
{
    if second.len() == 0 {
        assert(first + second =~= first);
    } else {
        lemma_configure_run_append(run, first, second.drop_last());
        assert((first + second).drop_last() =~= first + second.drop_last());
        assert((first + second).last() == second.last());
    }
}

fn sequence_requests(
    windows: &mut Vec<ConfigureWindow>,
    popups: &mut Vec<ConfigurePopup>,
    requests: &Vec<ConfigureRequest>,
    focus: &mut Option<u64>,
    grab: &mut Option<GrabStart>,
    deferred: &mut Vec<ConfigureRequest>,
)
    ensures
        ({
            let run = configure_run(
                ConfigureRun {
                    windows: windows_view(old(windows)@),
                    popups: old(popups)@,
                    focus: *old(focus),
                    grab: *old(grab),
                    deferred: old(deferred)@,
                },
                requests@,
            );
            &&& windows_view(final(windows)@) == run.windows
            &&& final(popups)@ == run.popups
            &&& *final(focus) == run.focus
            &&& *final(grab) == run.grab
            &&& final(deferred)@ == run.deferred
        }),
{
    let ghost start = ConfigureRun {
        windows: windows_view(windows@),
        popups: popups@,
        focus: *focus,
        grab: *grab,
        deferred: deferred@,
    };
    let mut i: usize = 0;
    while i < requests.len()
        invariant
            i <= requests@.len(),
            ({
                let run = configure_run(start, requests@.take(i as int));
                &&& windows_view(windows@) == run.windows
                &&& popups@ == run.popups
                &&& *focus == run.focus
                &&& *grab == run.grab
                &&& deferred@ == run.deferred
            }),
        decreases requests.len() - i,
    {
        proof {
            assert(requests@.take(i + 1).drop_last() =~= requests@.take(i as int));
        }
        let request = &requests[i];
        let surface = request.surface_id;
        match &request.action {
            ConfigureAction::ConfigureRequested { role: XdgSurfaceRole::Toplevel } => {},
            ConfigureAction::AckConfigure { role: XdgSurfaceRole::Popup, serial } => {
                proof {
                    lemma_first_index_bounds(popups@, popup_with(surface), 0);
                }
                match find_configure_popup(popups, surface) {
                    Some(k) => {
                        let popup = ConfigurePopup {
                            surface_id: popups[k].surface_id,
                            configure_serial: Some(*serial),
                        };
                        popups.set(k, popup);
                    },
                    None => {
                        deferred.push(clone_request(request));
                    },
                }
            },
            _ => {
                if addresses_window_exec(&request.action) {
                    proof {
                        lemma_first_index_bounds(windows_view(windows@), window_view_with(surface), 0);
                    }
                    match find_configure_window(windows, surface) {
                        Some(k) => {
                            let ghost before = windows@;
                            let mut window = windows.remove(k);
                            assert(window@ == windows_view(before)[k as int]);
                            apply_window_request(&mut window, &request.action, focus, grab);
                            windows.insert(k, window);
                            proof {
                                assert(windows@ == before.update(k as int, window));
                                assert(windows_view(windows@) =~= windows_view(before).update(
                                    k as int,
                                    window@,
                                ));
                            }
                        },
                        None => {
                            deferred.push(clone_request(request));
                        },
                    }
                } else {
                    deferred.push(clone_request(request));
                }
            },
        }
        i += 1;
    }
    assert(requests@.take(i as int) =~= requests@);
}

/// Sequences the staged requests followed by the newly received ones; see [`configure_run`].
/// Returns the requests kept for later, in order.
pub fn configure_sequence_system(
    windows: &mut Vec<ConfigureWindow>,
    popups: &mut Vec<ConfigurePopup>,
    staged: &Vec<ConfigureRequest>,
    received: &Vec<ConfigureRequest>,
    focus: &mut Option<u64>,
    grab: &mut Option<GrabStart>,
) -> (deferred: Vec<ConfigureRequest>)
    ensures
        ({
            let run = configure_run(
                ConfigureRun {
                    windows: windows_view(old(windows)@),
                    popups: old(popups)@,
                    focus: *old(focus),
                    grab: *old(grab),
                    deferred: seq![],
                },
                staged@ + received@,
            );
            &&& windows_view(final(windows)@) == run.windows
            &&& final(popups)@ == run.popups
            &&& *final(focus) == run.focus
            &&& *final(grab) == run.grab
            &&& deferred@ == run.deferred
        }),
{
    let ghost start = ConfigureRun {
        windows: windows_view(windows@),
        popups: popups@,
        focus: *focus,
        grab: *grab,
        deferred: seq![],
    };
    let mut deferred: Vec<ConfigureRequest> = Vec::new();
    sequence_requests(windows, popups, staged, focus, grab, &mut deferred);
    sequence_requests(windows, popups, received, focus, grab, &mut deferred);
    proof {
        lemma_configure_run_append(start, staged@, received@);
    }
    deferred
}

/// Maximizing twice and unmaximizing once gives back the window's geometry, fullscreen pin,
/// restore stack, layout and mode from before the first maximize.
pub proof fn law_repeated_maximize_restores_original_state(window: ConfigureWindowView, focus: Option<u64>, grab: Option<GrabStart>)
    requires
        window.mode != WindowMode::Maximized,
    ensures
        ({
            let once = window_request_step(window, ConfigureAction::Maximize, focus, grab);
            let twice = window_request_step(once.window, ConfigureAction::Maximize, once.focus, once.grab);
            let back = window_request_step(twice.window, ConfigureAction::UnMaximize, twice.focus, twice.grab);
            mode_state(back.window) == mode_state(window)
        }),
{
    let state = mode_state(window);
    let once = entered(state, WindowMode::Maximized, None);
    law_reentering_same_mode_keeps_restore_point(once, None);
    law_enter_then_restore_round_trips(state, WindowMode::Maximized, None, window.policy.applied);
    let twice = entered(once, WindowMode::Maximized, None);
    assert(twice == once);
}

/// Going fullscreen and back gives back the window's previous temporary state (for instance
/// maximized), geometry, fullscreen pin and restore stack.
pub proof fn law_fullscreen_restore_returns_to_previous_state(
    window: ConfigureWindowView,
    output_name: Option<String>,
    focus: Option<u64>,
    grab: Option<GrabStart>,
)
    requires
        window.mode != WindowMode::Fullscreen,
    ensures
        ({
            let full = window_request_step(window, ConfigureAction::Fullscreen { output_name }, focus, grab);
            let back = window_request_step(full.window, ConfigureAction::UnFullscreen, full.focus, full.grab);
            mode_state(back.window) == mode_state(window)
        }),
{
    law_enter_then_restore_round_trips(
        mode_state(window),
        WindowMode::Fullscreen,
        output_name,
        window.policy.applied,
    );
}

} // verus!

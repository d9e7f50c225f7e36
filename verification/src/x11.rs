//! XWayland windows: mapping, reconfiguring, state requests and grabs of X11 windows, bridged
//! into the same window model as native XDG windows.
//!
//! Window rules are resolved by the compositor configuration for each request's subject (see
//! [`x11_rule_subject`]); the resulting policy and background output come in with the request.

#[allow(unused_imports)]
use vstd::prelude::*;
use crate::configure::{GrabStart, ResizeEdges, WindowGrabMode};
use crate::lifecycle::{
    dismissed_popups, role_synced, LifecycleWindow, LifecycleWindowView,
    PopupChild, WindowManagementHints,
};
use crate::model::{SurfaceGeometry, WindowLayout, WindowMode, WindowSceneGeometry};
use crate::search::{first_index, first_index_from, lemma_first_index_bounds};
use crate::popup::{indexed_entity, IndexedSurface};
use crate::window_control::{FloatingPosition, WindowPlacement, WindowPosition, WindowSize};
use crate::window_policy::{
    apply_window_policy, lock_window_policy, refresh_window_policy, sync_window_background_role,
    BackgroundRoleChange, OutputBackgroundWindow, WindowBackgroundState, WindowFullscreenTarget,
    WindowPolicy, WindowPolicyState, WindowRestoreSnapshot, WindowRestoreState, WindowRole,
};

verus! {

/// Geometry an X11 client reports.
#[derive(Clone, Copy, Debug, PartialEq, Eq, Structural)]
pub struct X11WindowGeometry {
    pub x: i32,
    pub y: i32,
    pub width: u32,
    pub height: u32,
}

/// An X11 window: its entity, the window model, its X11 id and override-redirect flag.
pub struct X11Window {
    pub entity: u64,
    pub window: LifecycleWindow,
    pub window_id: u32,
    pub override_redirect: bool,
}

/// Mathematical value of an [`X11Window`].
pub struct X11WindowView {
    pub entity: u64,
    pub window: LifecycleWindowView,
    pub window_id: u32,
    pub override_redirect: bool,
}

impl View for X11Window {
    type V = X11WindowView;

    open spec fn view(&self) -> X11WindowView {
        X11WindowView {
            entity: self.entity,
            window: self.window@,
            window_id: self.window_id,
            override_redirect: self.override_redirect,
        }
    }
}

/// Sides of at least one.
pub open spec fn unit(value: u32) -> u32 {
    if value == 0 {
        1
    } else {
        value
    }
}

/// Local rectangle of a reported X11 geometry.
pub open spec fn x11_local(geometry: X11WindowGeometry) -> SurfaceGeometry {
    SurfaceGeometry { x: geometry.x, y: geometry.y, width: unit(geometry.width), height: unit(geometry.height) }
}

/// Scene rectangle of a reported X11 geometry.
pub open spec fn x11_scene(geometry: X11WindowGeometry) -> WindowSceneGeometry {
    WindowSceneGeometry {
        x: geometry.x as isize,
        y: geometry.y as isize,
        width: unit(geometry.width),
        height: unit(geometry.height),
    }
}

/// Explicit placement at a reported geometry.
pub open spec fn x11_placement(geometry: X11WindowGeometry) -> WindowPlacement {
    WindowPlacement {
        floating_position: Some(
            FloatingPosition::Explicit(
                WindowPosition { x: geometry.x as isize, y: geometry.y as isize },
            ),
        ),
        floating_size: Some(WindowSize { width: unit(geometry.width), height: unit(geometry.height) }),
    }
}

/// An existing X11 window after being mapped again (before the background sync): the reported
/// geometry, attached buffer, the title and application id, and the policy applied.
pub open spec fn remapped(
    window: LifecycleWindowView,
    title: Seq<char>,
    app_id: Seq<char>,
    geometry: X11WindowGeometry,
    policy: WindowPolicy,
) -> LifecycleWindowView {
    LifecycleWindowView {
        geometry: x11_local(geometry),
        scene_geometry: x11_scene(geometry),
        buffer_attached: Some(true),
        title,
        app_id,
        layout: policy.layout,
        mode: policy.mode,
        policy: WindowPolicyState { applied: policy, locked: false },
        ..window
    }
}

/// Floating placement after a (re)map: explicit at the reported geometry when the window floats
/// normally.
pub open spec fn placed_if_floating(window: LifecycleWindowView, geometry: X11WindowGeometry) -> LifecycleWindowView {
    if window.layout == WindowLayout::Floating && window.mode == WindowMode::Normal {
        LifecycleWindowView { placement: x11_placement(geometry), ..window }
    } else {
        window
    }
}

/// A newly mapped X11 window (before the background sync).
pub open spec fn mapped_window(
    surface_id: u64,
    title: Seq<char>,
    app_id: Seq<char>,
    hints: WindowManagementHints,
    geometry: X11WindowGeometry,
    policy: WindowPolicy,
    parent: Option<u64>,
) -> LifecycleWindowView {
    LifecycleWindowView {
        surface_id,
        title,
        app_id,
        hints,
        buffer_attached: Some(true),
        content_version: 0,
        geometry: x11_local(geometry),
        role: WindowRole::Managed,
        scene_geometry: x11_scene(geometry),
        fullscreen_output: None,
        layout: policy.layout,
        mode: policy.mode,
        background: None,
        frames: Seq::empty(),
        policy: WindowPolicyState { applied: policy, locked: false },
        placement: x11_placement(geometry),
        parent,
        pending_resize: None,
    }
}

/// Result of mapping an X11 window.
pub enum X11MapOutcome {
    /// The existing window was updated; `moved` is its new origin when it moved; `parent` the
    /// workspace it is attached to.
    Updated { background: BackgroundRoleChange, moved: Option<(i64, i64)>, parent: Option<u64> },
    /// A new window was created.
    Created { window: X11Window, background: BackgroundRoleChange },
}

fn sync_role(window: &mut LifecycleWindow, background_output: Option<u64>) -> (change: BackgroundRoleChange)
    ensures
        (change, final(window)@) == role_synced(old(window)@, background_output),
{
    let current = match &window.background {
        Some(background) => Some(
            OutputBackgroundWindow {
                output: background.output,
                restore: crate::window_policy::clone_restore_state(&background.restore),
            },
        ),
        None => None,
    };
    sync_window_background_role(background_output, &mut window.state, current)
}

fn place_if_floating(window: &mut LifecycleWindow, geometry: X11WindowGeometry)
    ensures
        final(window)@ == placed_if_floating(old(window)@, geometry),
{
    if window.state.layout == WindowLayout::Floating && window.state.mode == WindowMode::Normal {
        window.placement = WindowPlacement {
            floating_position: Some(
                FloatingPosition::Explicit(
                    WindowPosition { x: geometry.x as isize, y: geometry.y as isize },
                ),
            ),
            floating_size: Some(
                WindowSize {
                    width: if geometry.width == 0 { 1 } else { geometry.width },
                    height: if geometry.height == 0 { 1 } else { geometry.height },
                },
            ),
        };
    }
}

fn remap_existing(
    window: &mut LifecycleWindow,
    title: String,
    app_id: String,
    geometry: X11WindowGeometry,
    policy: WindowPolicy,
) -> (moved: bool)
    ensures
        final(window)@ == remapped(old(window)@, title@, app_id@, geometry, policy),
        moved == (old(window).geometry.x != geometry.x || old(window).geometry.y != geometry.y),
{
    let moved = window.geometry.x != geometry.x || window.geometry.y != geometry.y;
    let width: u32 = if geometry.width == 0 { 1 } else { geometry.width };
    let height: u32 = if geometry.height == 0 { 1 } else { geometry.height };
    window.geometry = SurfaceGeometry { x: geometry.x, y: geometry.y, width, height };
    window.state.scene_geometry = WindowSceneGeometry {
        x: geometry.x as isize,
        y: geometry.y as isize,
        width,
        height,
    };
    window.buffer_attached = Some(true);
    window.title = title;
    window.app_id = app_id;
    apply_window_policy(policy, &mut window.state.layout, &mut window.state.mode, &mut window.policy);
    moved
}

/// Maps an X11 window: an existing window takes the reported geometry, title and application
/// id, the policy (applied, not refreshed), the background sync, floating placement at the
/// reported origin when it floats normally, and is attached to the active workspace; a new
/// window is created from the policy with explicit placement at the reported geometry.
pub fn map_x11_window(
    entity: u64,
    surface_id: u64,
    window_id: u32,
    override_redirect: bool,
    title: String,
    app_id: String,
    geometry: X11WindowGeometry,
    hints: WindowManagementHints,
    policy: WindowPolicy,
    background_output: Option<u64>,
    active_workspace: Option<u64>,
    existing: &mut Option<X11Window>,
) -> (outcome: X11MapOutcome)
    ensures
        match *old(existing) {
            Some(x11) => {
                let (change, synced) = role_synced(
                    remapped(x11.window@, title@, app_id@, geometry, policy),
                    background_output,
                );
                let moved = x11.window.geometry.x != geometry.x || x11.window.geometry.y != geometry.y;
                &&& outcome == X11MapOutcome::Updated {
                    background: change,
                    moved: if moved { Some((geometry.x as i64, geometry.y as i64)) } else { None },
                    parent: active_workspace,
                }
                &&& *final(existing) matches Some(after) && after@ == (X11WindowView {
                    window: placed_if_floating(synced, geometry),
                    ..x11@
                })
            },
            None => {
                let (change, created) = role_synced(
                    mapped_window(surface_id, title@, app_id@, hints, geometry, policy, active_workspace),
                    background_output,
                );
                &&& outcome matches X11MapOutcome::Created { window, background } && window@
                    == (X11WindowView { entity, window: created, window_id, override_redirect })
                    && background == change
                &&& *final(existing) is None
            },
        },
{
    match existing.take() {
        Some(mut x11) => {
            let moved = remap_existing(&mut x11.window, title, app_id, geometry, policy);
            let change = sync_role(&mut x11.window, background_output);
            place_if_floating(&mut x11.window, geometry);
            *existing = Some(x11);
            X11MapOutcome::Updated {
                background: change,
                moved: if moved { Some((geometry.x as i64, geometry.y as i64)) } else { None },
                parent: active_workspace,
            }
        },
        None => {
            let width: u32 = if geometry.width == 0 { 1 } else { geometry.width };
            let height: u32 = if geometry.height == 0 { 1 } else { geometry.height };
            let mut window = LifecycleWindow {
                surface_id,
                title,
                app_id,
                hints,
                buffer_attached: Some(true),
                content_version: 0,
                geometry: SurfaceGeometry { x: geometry.x, y: geometry.y, width, height },
                state: WindowBackgroundState {
                    role: WindowRole::Managed,
                    scene_geometry: WindowSceneGeometry {
                        x: geometry.x as isize,
                        y: geometry.y as isize,
                        width,
                        height,
                    },
                    fullscreen_target: WindowFullscreenTarget { output: None },
                    layout: policy.layout,
                    mode: policy.mode,
                },
                background: None,
                restore: WindowRestoreSnapshot { frames: Vec::new() },
                policy: WindowPolicyState { applied: policy, locked: false },
                placement: WindowPlacement {
                    floating_position: Some(
                        FloatingPosition::Explicit(
                            WindowPosition { x: geometry.x as isize, y: geometry.y as isize },
                        ),
                    ),
                    floating_size: Some(WindowSize { width, height }),
                },
                parent: active_workspace,
                pending_resize: None,
            };
            let change = sync_role(&mut window, background_output);
            X11MapOutcome::Created {
                window: X11Window { entity, window, window_id, override_redirect },
                background: change,
            }
        },
    }
}

/// An X11 window after a reconfigure: the geometry's origin always, its size only when not
/// fullscreen or maximized (after the policy refresh and background sync); explicit placement
/// (and, when resizable, floating size) when it floats normally.
pub open spec fn reconfigured(window: LifecycleWindowView, geometry: X11WindowGeometry) -> LifecycleWindowView {
    let resizable = !(window.mode == WindowMode::Fullscreen || window.mode == WindowMode::Maximized);
    let sized = LifecycleWindowView {
        geometry: SurfaceGeometry {
            x: geometry.x,
            y: geometry.y,
            width: if resizable { unit(geometry.width) } else { window.geometry.width },
            height: if resizable { unit(geometry.height) } else { window.geometry.height },
        },
        scene_geometry: WindowSceneGeometry {
            x: geometry.x as isize,
            y: geometry.y as isize,
            width: if resizable { unit(geometry.width) } else { window.scene_geometry.width },
            height: if resizable { unit(geometry.height) } else { window.scene_geometry.height },
        },
        ..window
    };
    if window.layout == WindowLayout::Floating && window.mode == WindowMode::Normal {
        LifecycleWindowView {
            placement: WindowPlacement {
                floating_position: Some(
                    FloatingPosition::Explicit(
                        WindowPosition { x: geometry.x as isize, y: geometry.y as isize },
                    ),
                ),
                floating_size: if resizable {
                    Some(WindowSize { width: unit(geometry.width), height: unit(geometry.height) })
                } else {
                    window.placement.floating_size
                },
            },
            ..sized
        }
    } else {
        sized
    }
}

fn apply_reconfigure_geometry(window: &mut LifecycleWindow, geometry: X11WindowGeometry)
    ensures
        final(window)@ == reconfigured(old(window)@, geometry),
{
    let resizable = !(window.state.mode == WindowMode::Fullscreen || window.state.mode
        == WindowMode::Maximized);
    let width: u32 = if geometry.width == 0 { 1 } else { geometry.width };
    let height: u32 = if geometry.height == 0 { 1 } else { geometry.height };
    window.geometry.x = geometry.x;
    window.geometry.y = geometry.y;
    window.state.scene_geometry.x = geometry.x as isize;
    window.state.scene_geometry.y = geometry.y as isize;
    if resizable {
        window.geometry.width = width;
        window.geometry.height = height;
        window.state.scene_geometry.width = width;
        window.state.scene_geometry.height = height;
    }
    if window.state.layout == WindowLayout::Floating && window.state.mode == WindowMode::Normal {
        window.placement.set_explicit_position(
            WindowPosition { x: geometry.x as isize, y: geometry.y as isize },
        );
        if resizable {
            window.placement.floating_size = Some(WindowSize { width, height });
        }
    }
}

/// Reconfigures an X11 window: the buffer is attached, title and application id set, the policy
/// refreshed and the background synced, then the geometry applied (see [`reconfigured`]).
/// Returns the background change and the new origin when the window moved.
pub fn reconfigure_x11_window(
    x11: &mut X11Window,
    title: String,
    app_id: String,
    geometry: X11WindowGeometry,
    policy: WindowPolicy,
    background_output: Option<u64>,
) -> (result: (BackgroundRoleChange, Option<(i64, i64)>))
    ensures
        ({
            let updated = LifecycleWindowView {
                buffer_attached: Some(true),
                title: title@,
                app_id: app_id@,
                ..old(x11).window@
            };
            let (change, synced) = role_synced(
                crate::lifecycle::policy_refreshed(updated, policy),
                background_output,
            );
            let moved = old(x11).window.geometry.x != geometry.x || old(x11).window.geometry.y
                != geometry.y;
            &&& final(x11)@ == (X11WindowView { window: reconfigured(synced, geometry), ..old(x11)@ })
            &&& result == (change, if moved { Some((geometry.x as isize as i64, geometry.y as isize as i64)) } else { None })
        }),
{
    let moved = x11.window.geometry.x != geometry.x || x11.window.geometry.y != geometry.y;
    x11.window.buffer_attached = Some(true);
    x11.window.title = title;
    x11.window.app_id = app_id;
    refresh_window_policy(
        policy,
        &mut x11.window.state.layout,
        &mut x11.window.state.mode,
        &mut x11.window.restore,
        &mut x11.window.policy,
    );
    let change = sync_role(&mut x11.window, background_output);
    apply_reconfigure_geometry(&mut x11.window, geometry);
    let origin = if moved {
        Some((x11.window.state.scene_geometry.x as i64, x11.window.state.scene_geometry.y as i64))
    } else {
        None
    };
    (change, origin)
}

/// An X11 window entering maximized or fullscreen: the restore stack becomes the single frame
/// of its current geometry, layout and mode; the mode changes; the local geometry covers the
/// output when its size is known.
pub open spec fn x11_entered(
    window: LifecycleWindowView,
    target_mode: WindowMode,
    output_size: Option<(u32, u32)>,
) -> LifecycleWindowView {
    LifecycleWindowView {
        frames: seq![
            WindowRestoreState {
                geometry: window.scene_geometry,
                layout: window.layout,
                mode: window.mode,
                fullscreen_output: None,
            },
        ],
        mode: target_mode,
        geometry: match output_size {
            Some((width, height)) => SurfaceGeometry { x: 0, y: 0, width, height },
            None => window.geometry,
        },
        ..window
    }
}

/// Enters maximized or fullscreen; see [`x11_entered`].
pub fn enter_x11_window_state(
    window: &mut LifecycleWindow,
    target_mode: WindowMode,
    output_size: Option<(u32, u32)>,
)
    ensures
        final(window)@ == x11_entered(old(window)@, target_mode, output_size),
{
    let frame = WindowRestoreState {
        geometry: window.state.scene_geometry,
        layout: window.state.layout,
        mode: window.state.mode,
        fullscreen_output: None,
    };
    let mut frames: Vec<WindowRestoreState> = Vec::new();
    frames.push(frame);
    window.restore = WindowRestoreSnapshot { frames };
    window.state.mode = target_mode;
    if let Some((width, height)) = output_size {
        window.geometry = SurfaceGeometry { x: 0, y: 0, width, height };
    }
    assert(window.restore.frames@ =~= seq![frame]);
}

/// An X11 window leaving a temporary state: the saved frame's geometry, layout and mode come
/// back and the stack empties; without one, the policy's layout and mode.
pub open spec fn x11_restored(window: LifecycleWindowView) -> LifecycleWindowView {
    if window.frames.len() > 0 {
        let top = window.frames.last();
        LifecycleWindowView {
            scene_geometry: top.geometry,
            layout: top.layout,
            mode: top.mode,
            frames: Seq::empty(),
            ..window
        }
    } else {
        LifecycleWindowView {
            layout: window.policy.applied.layout,
            mode: window.policy.applied.mode,
            ..window
        }
    }
}

/// Leaves a temporary state; see [`x11_restored`].
pub fn restore_or_default_x11_window_state(window: &mut LifecycleWindow)
    ensures
        final(window)@ == x11_restored(old(window)@),
{
    let count = window.restore.frames.len();
    if count > 0 {
        let top = window.restore.frames.pop().unwrap();
        window.state.scene_geometry = top.geometry;
        window.state.layout = top.layout;
        window.state.mode = top.mode;
        window.restore = WindowRestoreSnapshot { frames: Vec::new() };
        assert(window.restore.frames@ =~= Seq::<WindowRestoreState>::empty());
    } else {
        window.state.layout = window.policy.applied.layout;
        window.state.mode = window.policy.applied.mode;
    }
}

/// Hides an X11 window.
pub fn minimize_x11_window(window: &mut LifecycleWindow)
    ensures
        final(window)@ == (LifecycleWindowView { mode: WindowMode::Hidden, ..old(window)@ }),
{
    window.state.mode = WindowMode::Hidden;
}

/// An X11 window starting an interactive grab: output backgrounds ignore it; else the policy's
/// layout and mode come back, a window that is not override-redirect floats normally with that
/// policy pinned, the window is focused and the grab begins.
pub open spec fn x11_grab_started(
    x11: X11WindowView,
    mode: WindowGrabMode,
    focus: Option<u64>,
    grab: Option<GrabStart>,
) -> (LifecycleWindowView, Option<u64>, Option<GrabStart>) {
    let window = x11.window;
    if window.background is Some {
        (window, focus, grab)
    } else {
        let defaulted = LifecycleWindowView {
            layout: window.policy.applied.layout,
            mode: window.policy.applied.mode,
            ..window
        };
        let floated = if x11.override_redirect {
            defaulted
        } else {
            LifecycleWindowView {
                layout: WindowLayout::Floating,
                mode: WindowMode::Normal,
                policy: WindowPolicyState {
                    applied: WindowPolicy { layout: WindowLayout::Floating, mode: WindowMode::Normal },
                    locked: true,
                },
                ..defaulted
            }
        };
        (
            floated,
            Some(window.surface_id),
            Some(
                GrabStart {
                    surface_id: window.surface_id,
                    mode,
                    start_scene_geometry: window.scene_geometry,
                },
            ),
        )
    }
}

/// Starts an interactive grab of an X11 window; see [`x11_grab_started`].
pub fn start_x11_window_grab(
    x11: &mut X11Window,
    mode: WindowGrabMode,
    focus: &mut Option<u64>,
    grab: &mut Option<GrabStart>,
)
    ensures
        ({
            let (window, f, g) = x11_grab_started(old(x11)@, mode, *old(focus), *old(grab));
            &&& final(x11)@ == (X11WindowView { window, ..old(x11)@ })
            &&& *final(focus) == f
            &&& *final(grab) == g
        }),
{
    if x11.window.background.is_some() {
        return;
    }
    x11.window.state.layout = x11.window.policy.applied.layout;
    x11.window.state.mode = x11.window.policy.applied.mode;
    if !x11.override_redirect {
        x11.window.state.layout = WindowLayout::Floating;
        x11.window.state.mode = WindowMode::Normal;
        lock_window_policy(x11.window.state.layout, x11.window.state.mode, &mut x11.window.policy);
    }
    *focus = Some(x11.window.surface_id);
    *grab = Some(
        GrabStart {
            surface_id: x11.window.surface_id,
            mode,
            start_scene_geometry: x11.window.state.scene_geometry,
        },
    );
}

/// Size X11 windows fill when maximized or fullscreen: the first output's size (sides at least
/// one), when there is an output.
pub fn x11_output_size(outputs: &Vec<crate::model::OutputRecord>) -> (size: Option<(u32, u32)>)
    ensures
        outputs@.len() == 0 ==> size is None,
        outputs@.len() > 0 ==> size == Some(
            (unit(outputs@[0].properties.width), unit(outputs@[0].properties.height)),
        ),
{
    if outputs.len() == 0 {
        return None;
    }
    let properties = outputs[0].properties;
    Some(
        (
            if properties.width == 0 { 1 } else { properties.width },
            if properties.height == 0 { 1 } else { properties.height },
        ),
    )
}

/// An XWayland lifecycle action.
#[derive(Clone, Debug, PartialEq, Eq)]
pub enum X11Action {
    Mapped {
        window_id: u32,
        override_redirect: bool,
        title: String,
        app_id: String,
        geometry: X11WindowGeometry,
    },
    Reconfigured { title: String, app_id: String, geometry: X11WindowGeometry },
    Maximize,
    UnMaximize,
    Fullscreen,
    UnFullscreen,
    Minimize,
    UnMinimize,
    InteractiveMove { button: u32 },
    InteractiveResize { button: u32, edges: ResizeEdges },
    Unmapped,
    Destroyed,
}

/// An XWayland lifecycle request for a surface.
#[derive(Clone, Debug, PartialEq, Eq)]
pub struct X11Request {
    pub surface_id: u64,
    pub action: X11Action,
}

/// Rules resolved for a request's subject (see [`x11_rule_subject`]).
#[derive(Clone, Copy, Debug, PartialEq, Eq, Structural)]
pub struct X11Rules {
    pub policy: WindowPolicy,
    pub background_output: Option<u64>,
}

/// A change decided by the bridge, applied in order.
pub enum X11Effect {
    /// Spawn a new X11 window (and report it created).
    Created(X11Window),
    /// Change of a surface's output-background component.
    Background { surface_id: u64, change: BackgroundRoleChange },
    /// Attach a window to a workspace.
    Attach { surface_id: u64, workspace: u64 },
    /// A window moved.
    Moved { surface_id: u64, x: i64, y: i64 },
    /// Dismiss a popup.
    DismissPopup { surface_id: u64 },
    /// Despawn a window entity and report the surface closed.
    Close { entity: u64, surface_id: u64 },
}

/// Mathematical value of an [`X11Effect`].
pub enum X11EffectView {
    Created(X11WindowView),
    Background { surface_id: u64, change: BackgroundRoleChange },
    Attach { surface_id: u64, workspace: u64 },
    Moved { surface_id: u64, x: i64, y: i64 },
    DismissPopup { surface_id: u64 },
    Close { entity: u64, surface_id: u64 },
}

impl View for X11Effect {
    type V = X11EffectView;

    open spec fn view(&self) -> X11EffectView {
        match self {
            X11Effect::Created(window) => X11EffectView::Created(window@),
            X11Effect::Background { surface_id, change } => X11EffectView::Background {
                surface_id: *surface_id,
                change: *change,
            },
            X11Effect::Attach { surface_id, workspace } => X11EffectView::Attach {
                surface_id: *surface_id,
                workspace: *workspace,
            },
            X11Effect::Moved { surface_id, x, y } => X11EffectView::Moved {
                surface_id: *surface_id,
                x: *x,
                y: *y,
            },
            X11Effect::DismissPopup { surface_id } => X11EffectView::DismissPopup {
                surface_id: *surface_id,
            },
            X11Effect::Close { entity, surface_id } => X11EffectView::Close {
                entity: *entity,
                surface_id: *surface_id,
            },
        }
    }
}

/// Values of a sequence of effects.
pub open spec fn x11_effects_view(effects: Seq<X11Effect>) -> Seq<X11EffectView> {
    effects.map_values(|effect: X11Effect| effect@)
}

/// Values of a sequence of X11 windows.
pub open spec fn x11_windows_view(windows: Seq<X11Window>) -> Seq<X11WindowView> {
    windows.map_values(|window: X11Window| window@)
}

/// Window with a given surface.
pub open spec fn x11_with_surface(surface_id: u64) -> spec_fn(X11WindowView) -> bool {
    |window: X11WindowView| window.window.surface_id == surface_id
}

/// Application id, title and override-redirect flag whose window rules apply to a request: a map
/// carries its own; a reconfigure uses its title and application id with the flag of the
/// window it addresses (none when there is no window yet); other requests need no rules.
pub open spec fn x11_rule_subject(
    windows: Seq<X11WindowView>,
    request: X11Request,
) -> Option<(Seq<char>, Seq<char>, bool)> {
    match request.action {
        X11Action::Mapped { override_redirect, title, app_id, .. } => Some(
            (app_id@, title@, override_redirect),
        ),
        X11Action::Reconfigured { title, app_id, .. } => match first_index(
            windows,
            x11_with_surface(request.surface_id),
        ) {
            Some(i) => Some((app_id@, title@, windows[i].override_redirect)),
            None => None,
        },
        _ => None,
    }
}

/// What the bridge reads besides the windows.
pub struct X11Context {
    pub index: Seq<IndexedSurface>,
    pub popups: Seq<PopupChild>,
    pub output_size: Option<(u32, u32)>,
    pub active_workspace: Option<u64>,
    pub hints: WindowManagementHints,
}

/// State of the bridge over a run of requests.
pub struct X11Run {
    pub windows: Seq<X11WindowView>,
    pub focus: Option<u64>,
    pub grab: Option<GrabStart>,
    pub next_entity: u64,
    pub effects: Seq<X11EffectView>,
    pub deferred: Seq<X11Request>,
}

/// Dismissals of the popups of a closing window.
pub open spec fn dismissal_effects(popups: Seq<u64>) -> Seq<X11EffectView> {
    popups.map_values(|surface_id: u64| X11EffectView::DismissPopup { surface_id })
}

/// One bridged request. A map updates the addressed window or creates one; a reconfigure,
/// state change or grab of a window that is not there yet waits; unmap / destroy dismisses the
/// window's popups and closes it.
pub open spec fn x11_step(context: X11Context, run: X11Run, request: X11Request, rules: X11Rules) -> X11Run {
    let surface = request.surface_id;
    let found = first_index(run.windows, x11_with_surface(surface));
    let wait = X11Run { deferred: run.deferred.push(request), ..run };
    match request.action {
        X11Action::Mapped { window_id, override_redirect, title, app_id, geometry } => match found {
            Some(i) => {
                let x11 = run.windows[i];
                let (change, synced) = role_synced(
                    remapped(x11.window, title@, app_id@, geometry, rules.policy),
                    rules.background_output,
                );
                let moved = x11.window.geometry.x != geometry.x || x11.window.geometry.y != geometry.y;
                let attach = match context.active_workspace {
                    Some(workspace) => seq![X11EffectView::Attach { surface_id: surface, workspace }],
                    None => Seq::<X11EffectView>::empty(),
                };
                let moves = if moved {
                    seq![X11EffectView::Moved { surface_id: surface, x: geometry.x as i64, y: geometry.y as i64 }]
                } else {
                    Seq::<X11EffectView>::empty()
                };
                X11Run {
                    windows: run.windows.update(
                        i,
                        X11WindowView { window: placed_if_floating(synced, geometry), ..x11 },
                    ),
                    effects: run.effects.push(X11EffectView::Background { surface_id: surface, change })
                        + attach + moves,
                    ..run
                }
            },
            None => {
                let (change, created) = role_synced(
                    mapped_window(
                        surface,
                        title@,
                        app_id@,
                        context.hints,
                        geometry,
                        rules.policy,
                        context.active_workspace,
                    ),
                    rules.background_output,
                );
                X11Run {
                    next_entity: (run.next_entity + 1) as u64,
                    effects: run.effects.push(
                        X11EffectView::Created(
                            X11WindowView {
                                entity: run.next_entity,
                                window: created,
                                window_id,
                                override_redirect,
                            },
                        ),
                    ).push(X11EffectView::Background { surface_id: surface, change }),
                    ..run
                }
            },
        },
        X11Action::Unmapped | X11Action::Destroyed => match found {
            Some(i) => X11Run {
                effects: run.effects + dismissal_effects(
                    match indexed_entity(context.index, surface) {
                        Some(parent) => dismissed_popups(context.popups, parent),
                        None => Seq::<u64>::empty(),
                    },
                ) + seq![X11EffectView::Close { entity: run.windows[i].entity, surface_id: surface }],
                ..run
            },
            None => run,
        },
        _ => match found {
            None => wait,
            Some(i) => {
                let x11 = run.windows[i];
                match request.action {
                    X11Action::Reconfigured { title, app_id, geometry } => {
                        let updated = LifecycleWindowView {
                            buffer_attached: Some(true),
                            title: title@,
                            app_id: app_id@,
                            ..x11.window
                        };
                        let (change, synced) = role_synced(
                            crate::lifecycle::policy_refreshed(updated, rules.policy),
                            rules.background_output,
                        );
                        let moved = x11.window.geometry.x != geometry.x || x11.window.geometry.y
                            != geometry.y;
                        X11Run {
                            windows: run.windows.update(
                                i,
                                X11WindowView { window: reconfigured(synced, geometry), ..x11 },
                            ),
                            effects: run.effects.push(
                                X11EffectView::Background { surface_id: surface, change },
                            ) + if moved {
                                seq![
                                    X11EffectView::Moved {
                                        surface_id: surface,
                                        x: geometry.x as isize as i64,
                                        y: geometry.y as isize as i64,
                                    },
                                ]
                            } else {
                                Seq::<X11EffectView>::empty()
                            },
                            ..run
                        }
                    },
                    X11Action::Maximize => X11Run {
                        windows: run.windows.update(
                            i,
                            X11WindowView {
                                window: x11_entered(x11.window, WindowMode::Maximized, context.output_size),
                                ..x11
                            },
                        ),
                        ..run
                    },
                    X11Action::Fullscreen => X11Run {
                        windows: run.windows.update(
                            i,
                            X11WindowView {
                                window: x11_entered(x11.window, WindowMode::Fullscreen, context.output_size),
                                ..x11
                            },
                        ),
                        ..run
                    },
                    X11Action::Minimize => X11Run {
                        windows: run.windows.update(
                            i,
                            X11WindowView {
                                window: LifecycleWindowView { mode: WindowMode::Hidden, ..x11.window },
                                ..x11
                            },
                        ),
                        ..run
                    },
                    X11Action::InteractiveMove { .. } => {
                        let (window, focus, grab) = x11_grab_started(x11, WindowGrabMode::Move, run.focus, run.grab);
                        X11Run { windows: run.windows.update(i, X11WindowView { window, ..x11 }), focus, grab, ..run }
                    },
                    X11Action::InteractiveResize { edges, .. } => {
                        let (window, focus, grab) = x11_grab_started(
                            x11,
                            WindowGrabMode::Resize { edges },
                            run.focus,
                            run.grab,
                        );
                        X11Run { windows: run.windows.update(i, X11WindowView { window, ..x11 }), focus, grab, ..run }
                    },
                    _ => X11Run {
                        windows: run.windows.update(
                            i,
                            X11WindowView { window: x11_restored(x11.window), ..x11 },
                        ),
                        ..run
                    },
                }
            },
        },
    }
}

/// Outcome of bridging requests in order, request `k` with rules `rules[k]`.
pub open spec fn x11_run(
    context: X11Context,
    run: X11Run,
    requests: Seq<X11Request>,
    rules: Seq<X11Rules>,
) -> X11Run
    decreases requests.len(),
{
    if requests.len() == 0 || rules.len() < requests.len() {
        run
    } else {
        x11_step(
            context,
            x11_run(context, run, requests.drop_last(), rules),
            requests.last(),
            rules[requests.len() - 1],
        )
    }
}

proof fn lemma_push_x11_effect(effects: Seq<X11Effect>, effect: X11Effect)
    ensures
        x11_effects_view(effects.push(effect)) == x11_effects_view(effects).push(effect@),
{
    assert(x11_effects_view(effects.push(effect)) =~= x11_effects_view(effects).push(effect@));
}

fn clone_x11_request(request: &X11Request) -> (copy: X11Request)
    ensures
        copy == *request,
{
    let action = match &request.action {
        X11Action::Mapped { window_id, override_redirect, title, app_id, geometry } => X11Action::Mapped {
            window_id: *window_id,
            override_redirect: *override_redirect,
            title: title.clone(),
            app_id: app_id.clone(),
            geometry: *geometry,
        },
        X11Action::Reconfigured { title, app_id, geometry } => X11Action::Reconfigured {
            title: title.clone(),
            app_id: app_id.clone(),
            geometry: *geometry,
        },
        X11Action::Maximize => X11Action::Maximize,
        X11Action::UnMaximize => X11Action::UnMaximize,
        X11Action::Fullscreen => X11Action::Fullscreen,
        X11Action::UnFullscreen => X11Action::UnFullscreen,
        X11Action::Minimize => X11Action::Minimize,
        X11Action::UnMinimize => X11Action::UnMinimize,
        X11Action::InteractiveMove { button } => X11Action::InteractiveMove { button: *button },
        X11Action::InteractiveResize { button, edges } => X11Action::InteractiveResize {
            button: *button,
            edges: *edges,
        },
        X11Action::Unmapped => X11Action::Unmapped,
        X11Action::Destroyed => X11Action::Destroyed,
    };
    X11Request { surface_id: request.surface_id, action }
}

fn find_x11_window(windows: &Vec<X11Window>, surface_id: u64) -> (index: Option<usize>)
    ensures
        match index {
            Some(i) => first_index(x11_windows_view(windows@), x11_with_surface(surface_id)) == Some(i as int),
            None => first_index(x11_windows_view(windows@), x11_with_surface(surface_id)) is None,
        },
{
    let ghost view = x11_windows_view(windows@);
    let mut i: usize = 0;
    while i < windows.len()
        invariant
            i <= windows@.len(),
            view == x11_windows_view(windows@),
            first_index(view, x11_with_surface(surface_id)) == first_index_from(
                view,
                x11_with_surface(surface_id),
                i as int,
            ),
        decreases windows.len() - i,
    {
        if windows[i].window.surface_id == surface_id {
            return Some(i);
        }
        i += 1;
    }
    None
}

/// Application id, title and override-redirect flag whose rules apply to a request; see
/// [`x11_rule_subject`].
pub fn x11_rule_subject_of(windows: &Vec<X11Window>, request: &X11Request) -> (subject: Option<
    (String, String, bool),
>)
    ensures
        match subject {
            Some((app, title, flag)) => x11_rule_subject(x11_windows_view(windows@), *request)
                == Some((app@, title@, flag)),
            None => x11_rule_subject(x11_windows_view(windows@), *request) is None,
        },
{
    match &request.action {
        X11Action::Mapped { override_redirect, title, app_id, .. } => Some(
            (app_id.clone(), title.clone(), *override_redirect),
        ),
        X11Action::Reconfigured { title, app_id, .. } => {
            proof {
                lemma_first_index_bounds(x11_windows_view(windows@), x11_with_surface(request.surface_id), 0);
            }
            match find_x11_window(windows, request.surface_id) {
                Some(i) => Some((app_id.clone(), title.clone(), windows[i].override_redirect)),
                None => None,
            }
        },
        _ => None,
    }
}

/// What the bridge reads besides the windows, as executable values.
pub struct X11Inputs {
    pub index: Vec<IndexedSurface>,
    pub popups: Vec<PopupChild>,
    pub output_size: Option<(u32, u32)>,
    pub active_workspace: Option<u64>,
    pub hints: WindowManagementHints,
}

impl X11Inputs {
    /// Value of the inputs.
    pub open spec fn context(&self) -> X11Context {
        X11Context {
            index: self.index@,
            popups: self.popups@,
            output_size: self.output_size,
            active_workspace: self.active_workspace,
            hints: self.hints,
        }
    }
}

fn push_effect(effects: &mut Vec<X11Effect>, effect: X11Effect)
    ensures
        x11_effects_view(final(effects)@) == x11_effects_view(old(effects)@).push(effect@),
{
    proof {
        lemma_push_x11_effect(effects@, effect);
    }
    effects.push(effect);
}

fn close_x11_window(inputs: &X11Inputs, entity: u64, surface_id: u64, effects: &mut Vec<X11Effect>)
    ensures
        x11_effects_view(final(effects)@) == x11_effects_view(old(effects)@) + dismissal_effects(
            match indexed_entity(inputs.index@, surface_id) {
                Some(parent) => dismissed_popups(inputs.popups@, parent),
                None => Seq::<u64>::empty(),
            },
        ) + seq![X11EffectView::Close { entity, surface_id }],
{
    let ghost start = x11_effects_view(effects@);
    let indexed = crate::popup::popup_parent_entity(surface_id, &inputs.index, &Vec::new());
    let dismissed = crate::lifecycle::enqueue_popup_dismissals(indexed, &inputs.popups);
    let ghost expected = match indexed_entity(inputs.index@, surface_id) {
        Some(parent) => dismissed_popups(inputs.popups@, parent),
        None => Seq::<u64>::empty(),
    };
    proof {
        assert(indexed == indexed_entity(inputs.index@, surface_id)) by {
            assert(crate::popup::last_index(Seq::<crate::popup::ParentSurface>::empty(), crate::popup::parent_with_surface(surface_id)) is None);
        }
        if indexed is None {
            assert(dismissed@ =~= expected);
        }
    }
    let mut k: usize = 0;
    while k < dismissed.len()
        invariant
            k <= dismissed@.len(),
            dismissed@ == expected,
            x11_effects_view(effects@) == start + dismissal_effects(dismissed@.take(k as int)),
        decreases dismissed.len() - k,
    {
        push_effect(effects, X11Effect::DismissPopup { surface_id: dismissed[k] });
        proof {
            assert(dismissal_effects(dismissed@.take(k + 1)) =~= dismissal_effects(dismissed@.take(k as int)).push(
                X11EffectView::DismissPopup { surface_id: dismissed@[k as int] },
            ));
            assert((start + dismissal_effects(dismissed@.take(k as int))).push(
                X11EffectView::DismissPopup { surface_id: dismissed@[k as int] },
            ) =~= start + dismissal_effects(dismissed@.take(k + 1)));
        }
        k += 1;
    }
    assert(dismissed@.take(k as int) =~= dismissed@);
    push_effect(effects, X11Effect::Close { entity, surface_id });
    assert((start + dismissal_effects(expected)).push(X11EffectView::Close { entity, surface_id })
        =~= start + dismissal_effects(expected) + seq![X11EffectView::Close { entity, surface_id }]);
}

/// Whether the executable bridge state holds the run's values.
pub open spec fn holds_run(
    run: X11Run,
    windows: Seq<X11Window>,
    focus: Option<u64>,
    grab: Option<GrabStart>,
    next_entity: u64,
    effects: Seq<X11Effect>,
    deferred: Seq<X11Request>,
) -> bool {
    &&& run.windows == x11_windows_view(windows)
    &&& run.focus == focus
    &&& run.grab == grab
    &&& run.next_entity == next_entity
    &&& run.effects == x11_effects_view(effects)
    &&& run.deferred == deferred
}

fn bridge_map(
    inputs: &X11Inputs,
    windows: &mut Vec<X11Window>,
    next_entity: &mut u64,
    effects: &mut Vec<X11Effect>,
    request: &X11Request,
    rules: X11Rules,
    Ghost(run): Ghost<X11Run>,
)
    requires
        request.action is Mapped,
        *old(next_entity) < u64::MAX,
        run.windows == x11_windows_view(old(windows)@),
        run.next_entity == *old(next_entity),
        run.effects == x11_effects_view(old(effects)@),
    ensures
        ({
            let after = x11_step(inputs.context(), run, *request, rules);
            &&& x11_windows_view(final(windows)@) == after.windows
            &&& *final(next_entity) == after.next_entity
            &&& x11_effects_view(final(effects)@) == after.effects
            &&& after.focus == run.focus
            &&& after.grab == run.grab
            &&& after.deferred == run.deferred
        }),
{
    let surface = request.surface_id;
    let (window_id, override_redirect, title, app_id, geometry) = match &request.action {
        X11Action::Mapped { window_id, override_redirect, title, app_id, geometry } => (
            *window_id,
            *override_redirect,
            title.clone(),
            app_id.clone(),
            *geometry,
        ),
        _ => {
            assert(false);
            return;
        },
    };
    proof {
        lemma_first_index_bounds(x11_windows_view(windows@), x11_with_surface(surface), 0);
    }
    match find_x11_window(windows, surface) {
        Some(i) => {
            let ghost before = windows@;
            let mut slot = Some(windows.remove(i));
            let outcome = map_x11_window(
                0,
                surface,
                window_id,
                override_redirect,
                title,
                app_id,
                geometry,
                inputs.hints,
                rules.policy,
                rules.background_output,
                inputs.active_workspace,
                &mut slot,
            );
            let x11 = match slot {
                Some(x11) => x11,
                None => {
                    assert(false);
                    return;
                },
            };
            windows.insert(i, x11);
            proof {
                assert(x11_windows_view(windows@) =~= x11_windows_view(before).update(i as int, x11@));
            }
            match outcome {
                X11MapOutcome::Updated { background, moved, parent } => {
                    push_effect(effects, X11Effect::Background { surface_id: surface, change: background });
                    let ghost after_background = x11_effects_view(effects@);
                    if let Some(workspace) = parent {
                        push_effect(effects, X11Effect::Attach { surface_id: surface, workspace });
                    }
                    let ghost after_attach = x11_effects_view(effects@);
                    if let Some((x, y)) = moved {
                        push_effect(effects, X11Effect::Moved { surface_id: surface, x, y });
                    }
                    proof {
                        let attach = match inputs.active_workspace {
                            Some(workspace) => seq![X11EffectView::Attach { surface_id: surface, workspace }],
                            None => Seq::<X11EffectView>::empty(),
                        };
                        assert(after_attach =~= after_background + attach);
                        let moves = match moved {
                            Some((x, y)) => seq![X11EffectView::Moved { surface_id: surface, x, y }],
                            None => Seq::<X11EffectView>::empty(),
                        };
                        assert(x11_effects_view(effects@) =~= after_background + attach + moves);
                    }
                },
                X11MapOutcome::Created { .. } => {
                    assert(false);
                },
            }
        },
        None => {
            let mut slot: Option<X11Window> = None;
            let outcome = map_x11_window(
                *next_entity,
                surface,
                window_id,
                override_redirect,
                title,
                app_id,
                geometry,
                inputs.hints,
                rules.policy,
                rules.background_output,
                inputs.active_workspace,
                &mut slot,
            );
            match outcome {
                X11MapOutcome::Created { window, background } => {
                    push_effect(effects, X11Effect::Created(window));
                    push_effect(effects, X11Effect::Background { surface_id: surface, change: background });
                },
                X11MapOutcome::Updated { .. } => {
                    assert(false);
                },
            }
            *next_entity = *next_entity + 1;
        },
    }
}

fn bridge_window_request(
    inputs: &X11Inputs,
    windows: &mut Vec<X11Window>,
    focus: &mut Option<u64>,
    grab: &mut Option<GrabStart>,
    effects: &mut Vec<X11Effect>,
    deferred: &mut Vec<X11Request>,
    request: &X11Request,
    rules: X11Rules,
    Ghost(run): Ghost<X11Run>,
)
    requires
        !(request.action is Mapped || request.action is Unmapped || request.action is Destroyed),
        holds_run(run, old(windows)@, *old(focus), *old(grab), run.next_entity, old(effects)@, old(deferred)@),
    ensures
        holds_run(
            x11_step(inputs.context(), run, *request, rules),
            final(windows)@,
            *final(focus),
            *final(grab),
            run.next_entity,
            final(effects)@,
            final(deferred)@,
        ),
{
    let surface = request.surface_id;
    proof {
        lemma_first_index_bounds(x11_windows_view(windows@), x11_with_surface(surface), 0);
    }
    let k = match find_x11_window(windows, surface) {
        Some(k) => k,
        None => {
            deferred.push(clone_x11_request(request));
            return;
        },
    };
    let ghost before = windows@;
    let mut x11 = windows.remove(k);
    assert(x11@ == x11_windows_view(before)[k as int]);
    match &request.action {
        X11Action::Reconfigured { title, app_id, geometry } => {
            let (change, moved) = reconfigure_x11_window(
                &mut x11,
                title.clone(),
                app_id.clone(),
                *geometry,
                rules.policy,
                rules.background_output,
            );
            push_effect(effects, X11Effect::Background { surface_id: surface, change });
            let ghost after_background = x11_effects_view(effects@);
            if let Some((x, y)) = moved {
                push_effect(effects, X11Effect::Moved { surface_id: surface, x, y });
            }
            proof {
                let moves = match moved {
                    Some((x, y)) => seq![X11EffectView::Moved { surface_id: surface, x, y }],
                    None => Seq::<X11EffectView>::empty(),
                };
                assert(x11_effects_view(effects@) =~= after_background + moves);
            }
        },
        X11Action::Maximize => {
            enter_x11_window_state(&mut x11.window, WindowMode::Maximized, inputs.output_size);
        },
        X11Action::Fullscreen => {
            enter_x11_window_state(&mut x11.window, WindowMode::Fullscreen, inputs.output_size);
        },
        X11Action::Minimize => {
            minimize_x11_window(&mut x11.window);
        },
        X11Action::InteractiveMove { .. } => {
            start_x11_window_grab(&mut x11, WindowGrabMode::Move, focus, grab);
        },
        X11Action::InteractiveResize { edges, .. } => {
            start_x11_window_grab(&mut x11, WindowGrabMode::Resize { edges: *edges }, focus, grab);
        },
        _ => {
            restore_or_default_x11_window_state(&mut x11.window);
        },
    }
    windows.insert(k, x11);
    proof {
        assert(x11_windows_view(windows@) =~= x11_windows_view(before).update(k as int, x11@));
    }
}

/// Bridges the pending XWayland requests in order, request `k` with the rules resolved for its
/// subject in `rules[k]` (see [`x11_run`]); new windows take entity handles from
/// `first_free_entity` on. Returns the effects and the requests that wait for their window.
pub fn xwayland_bridge_system(
    inputs: &X11Inputs,
    windows: &mut Vec<X11Window>,
    requests: &Vec<X11Request>,
    rules: &Vec<X11Rules>,
    focus: &mut Option<u64>,
    grab: &mut Option<GrabStart>,
    first_free_entity: u64,
) -> (result: (Vec<X11Effect>, Vec<X11Request>))
    requires
        rules@.len() == requests@.len(),
        first_free_entity + requests@.len() < u64::MAX,
    ensures
        ({
            let run = x11_run(
                inputs.context(),
                X11Run {
                    windows: x11_windows_view(old(windows)@),
                    focus: *old(focus),
                    grab: *old(grab),
                    next_entity: first_free_entity,
                    effects: seq![],
                    deferred: seq![],
                },
                requests@,
                rules@,
            );
            &&& x11_windows_view(final(windows)@) == run.windows
            &&& *final(focus) == run.focus
            &&& *final(grab) == run.grab
            &&& x11_effects_view(result.0@) == run.effects
            &&& result.1@ == run.deferred
        }),
{
    let ghost start = X11Run {
        windows: x11_windows_view(windows@),
        focus: *focus,
        grab: *grab,
        next_entity: first_free_entity,
        effects: seq![],
        deferred: seq![],
    };
    let mut effects: Vec<X11Effect> = Vec::new();
    let mut deferred: Vec<X11Request> = Vec::new();
    let mut next_entity = first_free_entity;
    assert(x11_effects_view(effects@) =~= Seq::<X11EffectView>::empty());
    let mut i: usize = 0;
    while i < requests.len()
        invariant
            i <= requests@.len(),
            rules@.len() == requests@.len(),
            first_free_entity + requests@.len() < u64::MAX,
            next_entity <= first_free_entity + i,
            ({
                let run = x11_run(inputs.context(), start, requests@.take(i as int), rules@);
                &&& x11_windows_view(windows@) == run.windows
                &&& *focus == run.focus
                &&& *grab == run.grab
                &&& next_entity == run.next_entity
                &&& x11_effects_view(effects@) == run.effects
                &&& deferred@ == run.deferred
            }),
        decreases requests.len() - i,
    {
        proof {
            assert(requests@.take(i + 1).drop_last() =~= requests@.take(i as int));
            assert(requests@.take(i + 1).last() == requests@[i as int]);
        }
        let request = &requests[i];
        let rule = rules[i];
        let surface = request.surface_id;
        let ghost run = x11_run(inputs.context(), start, requests@.take(i as int), rules@);
        proof {
            lemma_first_index_bounds(x11_windows_view(windows@), x11_with_surface(surface), 0);
        }
        match &request.action {
            X11Action::Mapped { .. } => {
                bridge_map(inputs, windows, &mut next_entity, &mut effects, request, rule, Ghost(run));
            },
            X11Action::Unmapped | X11Action::Destroyed => {
                if let Some(k) = find_x11_window(windows, surface) {
                    let entity = windows[k].entity;
                    close_x11_window(inputs, entity, surface, &mut effects);
                }
            },
            _ => {
                bridge_window_request(
                    inputs,
                    windows,
                    focus,
                    grab,
                    &mut effects,
                    &mut deferred,
                    request,
                    rule,
                    Ghost(run),
                );
            },
        }
        i += 1;
    }
    assert(requests@.take(i as int) =~= requests@);
    (effects, deferred)
}

} // verus!

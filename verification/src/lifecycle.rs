//! Window lifecycle: creating and updating windows from client metadata, applying committed
//! sizes (including anchored interactive resizes), window-manager requests, and destruction.
//!
//! Window rules are resolved by the compositor configuration; [`upsert_rule_subject`] says
//! which title and application id they are resolved for, and the resulting policy and background
//! output are handed to [`upsert_window`].

#[allow(unused_imports)]
use vstd::prelude::*;
use std::collections::BTreeSet;
use crate::configure::{GrabStart, ResizeEdges, WindowGrabMode};
use crate::geometry::{clamp_i32, clamp_isize, isize_saturating_add, isize_saturating_sub, saturating_isize_to_i32, u32_as_isize, u32_in_isize};
use crate::interaction::PendingInteractiveResize;
use crate::model::{SurfaceGeometry, WindowLayout, WindowMode, WindowSceneGeometry, WorkArea};
use crate::window_control::{FloatingPosition, WindowPlacement, WindowPosition, WindowSize};
use crate::window_policy::{
    entered, enter_temporary_window_mode, restore_window_state, restored, TemporaryModeState, lock_window_policy,
    background_sync, refresh_window_policy, refreshed_frames, sync_window_background_role,
    BackgroundRoleChange, OutputBackgroundWindow, WindowBackgroundState, WindowFullscreenTarget,
    WindowPolicy, WindowPolicyState, WindowRestoreSnapshot, WindowRestoreState, WindowRole,
};
use crate::window_switcher::window_label;

verus! {

/// How a client wants its window managed.
#[derive(Clone, Copy, Debug, PartialEq, Eq, Structural)]
pub struct WindowManagementHints {
    pub client_driven_resize: bool,
    pub prefer_floating: bool,
    pub bypass_window_rules: bool,
    pub helper_surface: bool,
}

/// A window as the lifecycle sees it.
pub struct LifecycleWindow {
    pub surface_id: u64,
    pub title: String,
    pub app_id: String,
    pub hints: WindowManagementHints,
    /// Whether the buffer is attached, when the window has a buffer.
    pub buffer_attached: Option<bool>,
    pub content_version: u64,
    pub geometry: SurfaceGeometry,
    pub state: WindowBackgroundState,
    pub background: Option<OutputBackgroundWindow>,
    pub restore: WindowRestoreSnapshot,
    pub policy: WindowPolicyState,
    pub placement: WindowPlacement,
    pub parent: Option<u64>,
    pub pending_resize: Option<PendingInteractiveResize>,
}

/// Mathematical value of a [`LifecycleWindow`].
pub struct LifecycleWindowView {
    pub surface_id: u64,
    pub title: Seq<char>,
    pub app_id: Seq<char>,
    pub hints: WindowManagementHints,
    pub buffer_attached: Option<bool>,
    pub content_version: u64,
    pub geometry: SurfaceGeometry,
    pub role: WindowRole,
    pub scene_geometry: WindowSceneGeometry,
    pub fullscreen_output: Option<String>,
    pub layout: WindowLayout,
    pub mode: WindowMode,
    pub background: Option<OutputBackgroundWindow>,
    pub frames: Seq<WindowRestoreState>,
    pub policy: WindowPolicyState,
    pub placement: WindowPlacement,
    pub parent: Option<u64>,
    pub pending_resize: Option<PendingInteractiveResize>,
}

impl View for LifecycleWindow {
    type V = LifecycleWindowView;

    open spec fn view(&self) -> LifecycleWindowView {
        LifecycleWindowView {
            surface_id: self.surface_id,
            title: self.title@,
            app_id: self.app_id@,
            hints: self.hints,
            buffer_attached: self.buffer_attached,
            content_version: self.content_version,
            geometry: self.geometry,
            role: self.state.role,
            scene_geometry: self.state.scene_geometry,
            fullscreen_output: self.state.fullscreen_target.output,
            layout: self.state.layout,
            mode: self.state.mode,
            background: self.background,
            frames: self.restore.frames@,
            policy: self.policy,
            placement: self.placement,
            parent: self.parent,
            pending_resize: self.pending_resize,
        }
    }
}

/// Background-role fields of a window value.
pub open spec fn role_state(window: LifecycleWindowView) -> WindowBackgroundState {
    WindowBackgroundState {
        role: window.role,
        scene_geometry: window.scene_geometry,
        fullscreen_target: WindowFullscreenTarget { output: window.fullscreen_output },
        layout: window.layout,
        mode: window.mode,
    }
}

/// A window value with its background-role fields replaced.
pub open spec fn with_role_state(window: LifecycleWindowView, state: WindowBackgroundState) -> LifecycleWindowView {
    LifecycleWindowView {
        role: state.role,
        scene_geometry: state.scene_geometry,
        fullscreen_output: state.fullscreen_target.output,
        layout: state.layout,
        mode: state.mode,
        ..window
    }
}

/// A window after a rule-policy refresh: unchanged when its policy is locked; else the visible
/// layout/mode follow the new policy while they still equal the applied one, restore frames move
/// to the new policy, and the new policy is applied (unlocked).
pub open spec fn policy_refreshed(window: LifecycleWindowView, policy: WindowPolicy) -> LifecycleWindowView {
    if window.policy.locked {
        window
    } else {
        let tracks = window.policy.spec_tracks_current(window.layout, window.mode);
        LifecycleWindowView {
            layout: if tracks { policy.layout } else { window.layout },
            mode: if tracks { policy.mode } else { window.mode },
            frames: refreshed_frames(window.frames, window.policy.applied, policy),
            policy: WindowPolicyState { applied: policy, locked: false },
            ..window
        }
    }
}

/// Background-role sync of a window value towards `desired_output`: the component change and
/// the window after it (its background component itself changes only through the change).
pub open spec fn role_synced(window: LifecycleWindowView, desired_output: Option<u64>) -> (
    BackgroundRoleChange,
    LifecycleWindowView,
) {
    let (change, state) = background_sync(desired_output, role_state(window), window.background);
    (change, with_role_state(window, state))
}

fn refresh_window_policy_for_window(
    window: &mut LifecycleWindow,
    policy: WindowPolicy,
    background_output: Option<u64>,
) -> (change: BackgroundRoleChange)
    ensures
        (change, final(window)@) == role_synced(policy_refreshed(old(window)@, policy), background_output),
{
    refresh_window_policy(
        policy,
        &mut window.state.layout,
        &mut window.state.mode,
        &mut window.restore,
        &mut window.policy,
    );
    assert(window@ == policy_refreshed(old(window)@, policy));
    let current = match &window.background {
        Some(background) => Some(
            OutputBackgroundWindow {
                output: background.output,
                restore: crate::window_policy::clone_restore_state(&background.restore),
            },
        ),
        None => None,
    };
    let change = sync_window_background_role(background_output, &mut window.state, current);
    change
}

/// Title a window gets: the client's, else `Window <surface id>`.
pub open spec fn resolved_title(surface_id: u64, title: Option<String>) -> Seq<char> {
    match title {
        Some(title) => title@,
        None => window_label(surface_id),
    }
}

/// Application id a window gets: the client's, else empty.
pub open spec fn resolved_app_id(app_id: Option<String>) -> Seq<char> {
    match app_id {
        Some(app_id) => app_id@,
        None => Seq::<char>::empty(),
    }
}

/// Scene rectangle an upsert applies: the one the client sent, else, for a surface seen for the
/// first time, 960x720 at the origin.
pub open spec fn upsert_geometry(
    surface_id: u64,
    scene_geometry: Option<WindowSceneGeometry>,
    known: Set<u64>,
) -> Option<WindowSceneGeometry> {
    match scene_geometry {
        Some(geometry) => Some(geometry),
        None => if !known.contains(surface_id) {
            Some(WindowSceneGeometry { x: 0, y: 0, width: 960, height: 720 })
        } else {
            None
        },
    }
}

/// Application id and title whose window rules an upsert applies: the resolved ones when the
/// upsert carries geometry; else those of the existing window after the metadata update; none
/// when there is neither (the upsert waits for its window).
pub open spec fn rule_subject(
    surface_id: u64,
    title: Option<String>,
    app_id: Option<String>,
    scene_geometry: Option<WindowSceneGeometry>,
    known: Set<u64>,
    existing: Option<LifecycleWindowView>,
) -> Option<(Seq<char>, Seq<char>)> {
    if upsert_geometry(surface_id, scene_geometry, known) is Some {
        Some((resolved_app_id(app_id), resolved_title(surface_id, title)))
    } else {
        match existing {
            Some(window) => Some(
                (
                    match app_id {
                        Some(app_id) => app_id@,
                        None => window.app_id,
                    },
                    match title {
                        Some(title) => title@,
                        None => window.title,
                    },
                ),
            ),
            None => None,
        }
    }
}

/// A copy of an optional string.
pub fn clone_optional_string(value: &Option<String>) -> (copy: Option<String>)
    ensures
        copy == *value,
{
    match value {
        Some(text) => Some(text.clone()),
        None => None,
    }
}

/// Application id and title whose window rules an upsert applies; see [`rule_subject`].
pub fn upsert_rule_subject(
    surface_id: u64,
    title: &Option<String>,
    app_id: &Option<String>,
    scene_geometry: Option<WindowSceneGeometry>,
    known: &BTreeSet<u64>,
    existing: Option<&LifecycleWindow>,
) -> (subject: Option<(String, String)>)
    ensures
        match subject {
            Some((app, name)) => rule_subject(
                surface_id,
                *title,
                *app_id,
                scene_geometry,
                known@,
                match existing {
                    Some(window) => Some(window@),
                    None => None,
                },
            ) == Some((app@, name@)),
            None => rule_subject(
                surface_id,
                *title,
                *app_id,
                scene_geometry,
                known@,
                match existing {
                    Some(window) => Some(window@),
                    None => None,
                },
            ) is None,
        },
{
    let has_geometry = scene_geometry.is_some() || !known.contains(&surface_id);
    if has_geometry {
        let resolved_app = match app_id {
            Some(app) => app.clone(),
            None => String::new(),
        };
        let resolved = match title {
            Some(name) => name.clone(),
            None => crate::window_switcher::untitled_label(surface_id),
        };
        return Some((resolved_app, resolved));
    }
    match existing {
        Some(window) => {
            let app = match app_id {
                Some(app) => app.clone(),
                None => window.app_id.clone(),
            };
            let name = match title {
                Some(name) => name.clone(),
                None => window.title.clone(),
            };
            Some((app, name))
        },
        None => None,
    }
}

/// Result of an upsert.
pub enum UpsertOutcome {
    /// No geometry and no window yet: the upsert waits.
    Deferred,
    /// The existing window's metadata was updated and its policy refreshed.
    MetadataUpdated { background: BackgroundRoleChange },
    /// The existing window was updated; `moved` is its new origin when it moved, `parent` the
    /// workspace it is attached to when it had none.
    Updated {
        background: BackgroundRoleChange,
        moved: Option<(i64, i64)>,
        parent: Option<u64>,
    },
    /// A new window was created.
    Created { window: LifecycleWindow, background: BackgroundRoleChange },
}

/// Scene rectangle with sides of at least one.
pub open spec fn at_least_unit(geometry: WindowSceneGeometry) -> WindowSceneGeometry {
    WindowSceneGeometry {
        width: if geometry.width == 0 { 1 } else { geometry.width },
        height: if geometry.height == 0 { 1 } else { geometry.height },
        ..geometry
    }
}

/// Output-local rectangle of an upserted scene rectangle: its origin clamped to `i32`.
pub open spec fn upsert_local(geometry: WindowSceneGeometry) -> SurfaceGeometry {
    SurfaceGeometry {
        x: clamp_i32(geometry.x as int) as i32,
        y: clamp_i32(geometry.y as int) as i32,
        width: at_least_unit(geometry).width,
        height: at_least_unit(geometry).height,
    }
}

/// Existing window after an upsert with geometry (before the background sync): metadata set,
/// buffer attachment recorded, policy refreshed; geometry applied unless a client-driven window
/// has already committed content.
pub open spec fn upserted_existing(
    window: LifecycleWindowView,
    title: Seq<char>,
    app_id: Seq<char>,
    hints: WindowManagementHints,
    attached: bool,
    policy: WindowPolicy,
) -> LifecycleWindowView {
    policy_refreshed(
        LifecycleWindowView {
            title,
            app_id,
            hints,
            buffer_attached: match window.buffer_attached {
                Some(_) => Some(attached),
                None => None,
            },
            ..window
        },
        policy,
    )
}

/// Geometry part of an upsert on an existing window.
pub open spec fn upsert_placed(
    window: LifecycleWindowView,
    geometry: WindowSceneGeometry,
    allow: bool,
) -> LifecycleWindowView {
    if allow {
        let scene = at_least_unit(geometry);
        LifecycleWindowView {
            geometry: upsert_local(geometry),
            scene_geometry: scene,
            placement: if window.layout == WindowLayout::Floating && window.mode == WindowMode::Normal {
                WindowPlacement {
                    floating_position: Some(
                        FloatingPosition::Explicit(WindowPosition { x: geometry.x, y: geometry.y }),
                    ),
                    floating_size: Some(WindowSize { width: scene.width, height: scene.height }),
                }
            } else {
                window.placement
            },
            ..window
        }
    } else {
        window
    }
}

/// Placement of a new window: explicit at the client's origin with its size when it prefers
/// floating or the policy floats it, else none.
pub open spec fn new_placement(
    geometry: WindowSceneGeometry,
    hints: WindowManagementHints,
    policy: WindowPolicy,
) -> WindowPlacement {
    if hints.prefer_floating || policy.layout == WindowLayout::Floating {
        WindowPlacement {
            floating_position: Some(
                FloatingPosition::Explicit(WindowPosition { x: geometry.x, y: geometry.y }),
            ),
            floating_size: Some(
                WindowSize {
                    width: at_least_unit(geometry).width,
                    height: at_least_unit(geometry).height,
                },
            ),
        }
    } else {
        WindowPlacement { floating_position: None, floating_size: None }
    }
}

/// A new window before its background sync.
pub open spec fn new_window(
    surface_id: u64,
    title: Seq<char>,
    app_id: Seq<char>,
    hints: WindowManagementHints,
    geometry: WindowSceneGeometry,
    attached: bool,
    policy: WindowPolicy,
    parent: Option<u64>,
) -> LifecycleWindowView {
    LifecycleWindowView {
        surface_id,
        title,
        app_id,
        hints,
        buffer_attached: Some(attached),
        content_version: 0,
        geometry: upsert_local(geometry),
        role: WindowRole::Managed,
        scene_geometry: at_least_unit(geometry),
        fullscreen_output: None,
        layout: policy.layout,
        mode: policy.mode,
        background: None,
        frames: Seq::empty(),
        policy: WindowPolicyState { applied: policy, locked: false },
        placement: new_placement(geometry, hints, policy),
        parent,
        pending_resize: None,
    }
}

/// Creates or updates the window of a surface from client metadata; see [`UpsertOutcome`].
///
/// With geometry (sent, or the 960x720 default for a surface seen for the first time) an
/// existing window gets the resolved title / application id, the hints, the buffer attachment,
/// a policy refresh and background sync, and (unless a client-driven window already committed
/// content) the geometry, made explicit when it floats; a new window is created from the policy
/// and attached to the active workspace. Without geometry only an existing window's metadata
/// and policy are refreshed; with no window the upsert waits.
pub fn upsert_window(
    surface_id: u64,
    title: Option<String>,
    app_id: Option<String>,
    hints: WindowManagementHints,
    scene_geometry: Option<WindowSceneGeometry>,
    attached: bool,
    policy: WindowPolicy,
    background_output: Option<u64>,
    active_workspace: Option<u64>,
    existing: &mut Option<LifecycleWindow>,
    known: &mut BTreeSet<u64>,
) -> (outcome: UpsertOutcome)
    ensures
        match upsert_geometry(surface_id, scene_geometry, old(known)@) {
            None => match *old(existing) {
                None => outcome is Deferred && *final(existing) is None && final(known)@
                    == old(known)@,
                Some(window) => {
                    let updated = LifecycleWindowView {
                        title: match title {
                            Some(title) => title@,
                            None => window@.title,
                        },
                        app_id: match app_id {
                            Some(app_id) => app_id@,
                            None => window@.app_id,
                        },
                        hints,
                        ..window@
                    };
                    let (change, after) = role_synced(policy_refreshed(updated, policy), background_output);
                    &&& outcome == UpsertOutcome::MetadataUpdated { background: change }
                    &&& *final(existing) matches Some(w) && w@ == after
                    &&& final(known)@ == old(known)@
                },
            },
            Some(geometry) => match *old(existing) {
                Some(window) => {
                    let allow = !window.hints.client_driven_resize || window.content_version == 0;
                    let refreshed = upserted_existing(
                        window@,
                        resolved_title(surface_id, title),
                        resolved_app_id(app_id),
                        hints,
                        attached,
                        policy,
                    );
                    let (change, synced) = role_synced(refreshed, background_output);
                    let moved = window.state.scene_geometry.x != geometry.x
                        || window.state.scene_geometry.y != geometry.y;
                    &&& outcome == UpsertOutcome::Updated {
                        background: change,
                        moved: if moved {
                            Some((geometry.x as i64, geometry.y as i64))
                        } else {
                            None
                        },
                        parent: if window.parent is None {
                            active_workspace
                        } else {
                            None
                        },
                    }
                    &&& *final(existing) matches Some(w) && w@ == upsert_placed(synced, geometry, allow)
                    &&& final(known)@ == old(known)@.insert(surface_id)
                },
                None => {
                    let fresh = new_window(
                        surface_id,
                        resolved_title(surface_id, title),
                        resolved_app_id(app_id),
                        hints,
                        geometry,
                        attached,
                        policy,
                        active_workspace,
                    );
                    let (change, created) = role_synced(fresh, background_output);
                    &&& outcome matches UpsertOutcome::Created { window, background } && window@
                        == created && background == change
                    &&& *final(existing) is None
                    &&& final(known)@ == old(known)@.insert(surface_id)
                },
            },
        },
{
    let geometry = match scene_geometry {
        Some(geometry) => Some(geometry),
        None => if !known.contains(&surface_id) {
            Some(WindowSceneGeometry { x: 0, y: 0, width: 960, height: 720 })
        } else {
            None
        },
    };
    match geometry {
        None => match existing.take() {
            Some(mut window) => {
                let change = upsert_metadata(&mut window, title, app_id, hints, policy, background_output);
                *existing = Some(window);
                UpsertOutcome::MetadataUpdated { background: change }
            },
            None => UpsertOutcome::Deferred,
        },
        Some(geometry) => {
            let outcome = match existing.take() {
                Some(mut window) => {
                    let outcome = upsert_existing(
                        &mut window,
                        surface_id,
                        title,
                        app_id,
                        hints,
                        geometry,
                        attached,
                        policy,
                        background_output,
                        active_workspace,
                    );
                    *existing = Some(window);
                    outcome
                },
                None => upsert_new(
                    surface_id,
                    title,
                    app_id,
                    hints,
                    geometry,
                    attached,
                    policy,
                    background_output,
                    active_workspace,
                ),
            };
            known.insert(surface_id);
            outcome
        },
    }
}

fn upsert_metadata(
    window: &mut LifecycleWindow,
    title: Option<String>,
    app_id: Option<String>,
    hints: WindowManagementHints,
    policy: WindowPolicy,
    background_output: Option<u64>,
) -> (change: BackgroundRoleChange)
    ensures
        ({
            let updated = LifecycleWindowView {
                title: match title {
                    Some(title) => title@,
                    None => old(window)@.title,
                },
                app_id: match app_id {
                    Some(app_id) => app_id@,
                    None => old(window)@.app_id,
                },
                hints,
                ..old(window)@
            };
            (change, final(window)@) == role_synced(policy_refreshed(updated, policy), background_output)
        }),
{
    if let Some(title) = title {
        window.title = title;
    }
    if let Some(app_id) = app_id {
        window.app_id = app_id;
    }
    window.hints = hints;
    refresh_window_policy_for_window(window, policy, background_output)
}

fn refresh_existing(
    window: &mut LifecycleWindow,
    title: String,
    app_id: String,
    hints: WindowManagementHints,
    attached: bool,
    policy: WindowPolicy,
    background_output: Option<u64>,
) -> (change: BackgroundRoleChange)
    ensures
        (change, final(window)@) == role_synced(
            upserted_existing(old(window)@, title@, app_id@, hints, attached, policy),
            background_output,
        ),
{
    window.title = title;
    window.app_id = app_id;
    window.hints = hints;
    if window.buffer_attached.is_some() {
        window.buffer_attached = Some(attached);
    }
    refresh_window_policy_for_window(window, policy, background_output)
}

fn apply_upsert_geometry(window: &mut LifecycleWindow, geometry: WindowSceneGeometry, allow: bool)
    ensures
        final(window)@ == upsert_placed(old(window)@, geometry, allow),
{
    if allow {
        let width: u32 = if geometry.width == 0 { 1 } else { geometry.width };
        let height: u32 = if geometry.height == 0 { 1 } else { geometry.height };
        window.geometry = SurfaceGeometry {
            x: saturating_isize_to_i32(geometry.x),
            y: saturating_isize_to_i32(geometry.y),
            width,
            height,
        };
        window.state.scene_geometry = WindowSceneGeometry { x: geometry.x, y: geometry.y, width, height };
        if window.state.layout == WindowLayout::Floating && window.state.mode == WindowMode::Normal {
            window.placement.set_explicit_position(WindowPosition { x: geometry.x, y: geometry.y });
            window.placement.floating_size = Some(WindowSize { width, height });
        }
    }
}

fn upsert_existing(
    window: &mut LifecycleWindow,
    surface_id: u64,
    title: Option<String>,
    app_id: Option<String>,
    hints: WindowManagementHints,
    geometry: WindowSceneGeometry,
    attached: bool,
    policy: WindowPolicy,
    background_output: Option<u64>,
    active_workspace: Option<u64>,
) -> (outcome: UpsertOutcome)
    ensures
        ({
            let allow = !old(window).hints.client_driven_resize || old(window).content_version == 0;
            let refreshed = upserted_existing(
                old(window)@,
                resolved_title(surface_id, title),
                resolved_app_id(app_id),
                hints,
                attached,
                policy,
            );
            let (change, synced) = role_synced(refreshed, background_output);
            let moved = old(window).state.scene_geometry.x != geometry.x
                || old(window).state.scene_geometry.y != geometry.y;
            &&& outcome == UpsertOutcome::Updated {
                background: change,
                moved: if moved {
                    Some((geometry.x as i64, geometry.y as i64))
                } else {
                    None
                },
                parent: if old(window).parent is None {
                    active_workspace
                } else {
                    None
                },
            }
            &&& final(window)@ == upsert_placed(synced, geometry, allow)
        }),
{
    let resolved = match title {
        Some(title) => title,
        None => crate::window_switcher::untitled_label(surface_id),
    };
    let resolved_app = match app_id {
        Some(app_id) => app_id,
        None => String::new(),
    };
    let width: u32 = if geometry.width == 0 { 1 } else { geometry.width };
    let height: u32 = if geometry.height == 0 { 1 } else { geometry.height };
    let moved = window.state.scene_geometry.x != geometry.x
        || window.state.scene_geometry.y != geometry.y;
    let allow = !window.hints.client_driven_resize || window.content_version == 0;
    let change = refresh_existing(window, resolved, resolved_app, hints, attached, policy, background_output);
    apply_upsert_geometry(window, geometry, allow);
    let parent = if window.parent.is_none() {
        active_workspace
    } else {
        None
    };
    UpsertOutcome::Updated {
        background: change,
        moved: if moved {
            Some((geometry.x as i64, geometry.y as i64))
        } else {
            None
        },
        parent,
    }
}

fn upsert_new(
    surface_id: u64,
    title: Option<String>,
    app_id: Option<String>,
    hints: WindowManagementHints,
    geometry: WindowSceneGeometry,
    attached: bool,
    policy: WindowPolicy,
    background_output: Option<u64>,
    active_workspace: Option<u64>,
) -> (outcome: UpsertOutcome)
    ensures
        ({
            let fresh = new_window(
                surface_id,
                resolved_title(surface_id, title),
                resolved_app_id(app_id),
                hints,
                geometry,
                attached,
                policy,
                active_workspace,
            );
            let (change, created) = role_synced(fresh, background_output);
            outcome matches UpsertOutcome::Created { window, background } && window@ == created
                && background == change
        }),
{
    let resolved = match title {
        Some(title) => title,
        None => crate::window_switcher::untitled_label(surface_id),
    };
    let resolved_app = match app_id {
        Some(app_id) => app_id,
        None => String::new(),
    };
    let width: u32 = if geometry.width == 0 { 1 } else { geometry.width };
    let height: u32 = if geometry.height == 0 { 1 } else { geometry.height };
    let placement = if hints.prefer_floating || policy.layout == WindowLayout::Floating {
        WindowPlacement {
            floating_position: Some(
                FloatingPosition::Explicit(WindowPosition { x: geometry.x, y: geometry.y }),
            ),
            floating_size: Some(WindowSize { width, height }),
        }
    } else {
        WindowPlacement { floating_position: None, floating_size: None }
    };
    let mut window = LifecycleWindow {
        surface_id,
        title: resolved,
        app_id: resolved_app,
        hints,
        buffer_attached: Some(attached),
        content_version: 0,
        geometry: SurfaceGeometry {
            x: saturating_isize_to_i32(geometry.x),
            y: saturating_isize_to_i32(geometry.y),
            width,
            height,
        },
        state: WindowBackgroundState {
            role: WindowRole::Managed,
            scene_geometry: WindowSceneGeometry { x: geometry.x, y: geometry.y, width, height },
            fullscreen_target: WindowFullscreenTarget { output: None },
            layout: policy.layout,
            mode: policy.mode,
        },
        background: None,
        restore: WindowRestoreSnapshot { frames: Vec::new() },
        policy: WindowPolicyState { applied: policy, locked: false },
        placement,
        parent: active_workspace,
        pending_resize: None,
    };
    assert(window@ == new_window(
        surface_id,
        resolved_title(surface_id, title),
        resolved_app_id(app_id),
        hints,
        geometry,
        attached,
        policy,
        active_workspace,
    ));
    let change = sync_window_background_role(background_output, &mut window.state, None);
    UpsertOutcome::Created { window, background: change }
}

/// Geometry a client committed during an anchored resize: the committed size, with the right
/// (bottom) edge of the target kept in place when the left (top) edge was dragged.
pub open spec fn anchored_commit(
    target: WindowSceneGeometry,
    width: u32,
    height: u32,
    edges: ResizeEdges,
) -> WindowSceneGeometry {
    let right = clamp_isize(target.x + u32_in_isize(target.width));
    let bottom = clamp_isize(target.y + u32_in_isize(target.height));
    WindowSceneGeometry {
        x: if edges.spec_has_left() { clamp_isize(right - u32_in_isize(width)) as isize } else { target.x },
        y: if edges.spec_has_top() { clamp_isize(bottom - u32_in_isize(height)) as isize } else { target.y },
        width,
        height,
    }
}

/// Geometry a client committed during an anchored resize; see [`anchored_commit`].
pub fn anchored_resize_commit_geometry(
    target_geometry: &WindowSceneGeometry,
    committed_width: u32,
    committed_height: u32,
    edges: ResizeEdges,
) -> (geometry: WindowSceneGeometry)
    ensures
        geometry == anchored_commit(*target_geometry, committed_width, committed_height, edges),
{
    let right = isize_saturating_add(target_geometry.x, u32_as_isize(target_geometry.width));
    let bottom = isize_saturating_add(target_geometry.y, u32_as_isize(target_geometry.height));
    let x = if edges.has_left() {
        isize_saturating_sub(right, u32_as_isize(committed_width))
    } else {
        target_geometry.x
    };
    let y = if edges.has_top() {
        isize_saturating_sub(bottom, u32_as_isize(committed_height))
    } else {
        target_geometry.y
    };
    WindowSceneGeometry { x, y, width: committed_width, height: committed_height }
}

/// The edge opposite to the dragged one stays put when a client commits a different size than
/// requested (without saturation): the right edge for a left drag, the bottom edge for a top
/// drag; an undragged origin is kept.
pub proof fn law_anchored_commit_keeps_opposite_edge(
    target: WindowSceneGeometry,
    width: u32,
    height: u32,
    edges: ResizeEdges,
)
    requires
        target.width <= isize::MAX && width <= isize::MAX,
        target.height <= isize::MAX && height <= isize::MAX,
        isize::MIN <= target.x - width && target.x + target.width <= isize::MAX,
        isize::MIN <= target.y - height && target.y + target.height <= isize::MAX,
    ensures
        ({
            let committed = anchored_commit(target, width, height, edges);
            &&& edges.spec_has_left() ==> committed.x + committed.width == target.x + target.width
            &&& !edges.spec_has_left() ==> committed.x == target.x
            &&& edges.spec_has_top() ==> committed.y + committed.height == target.y + target.height
            &&& !edges.spec_has_top() ==> committed.y == target.y
        }),
{
}

/// A window after a committed geometry: the scene rectangle is the committed one, placed
/// explicitly at its origin with its size as floating size.
pub open spec fn geometry_committed(window: LifecycleWindowView, committed: WindowSceneGeometry) -> LifecycleWindowView {
    LifecycleWindowView {
        scene_geometry: committed,
        placement: WindowPlacement {
            floating_position: Some(
                FloatingPosition::Explicit(WindowPosition { x: committed.x, y: committed.y }),
            ),
            floating_size: Some(WindowSize { width: committed.width, height: committed.height }),
        },
        ..window
    }
}

/// Applies a committed geometry to the window; see [`geometry_committed`].
pub fn apply_committed_geometry(window: &mut LifecycleWindow, committed: &WindowSceneGeometry)
    ensures
        final(window)@ == geometry_committed(old(window)@, *committed),
{
    window.state.scene_geometry = *committed;
    window.placement.set_explicit_position(WindowPosition { x: committed.x, y: committed.y });
    window.placement.floating_size = Some(
        WindowSize { width: committed.width, height: committed.height },
    );
}

/// A commit of `width x height` (at least one each) on a window in a normal mode: a
/// client-driven window with a pending interactive resize takes the size anchored to the
/// in-flight (else requested) geometry, and the resize is finished when the in-flight geometry
/// was the requested one (else the in-flight one is cleared) or when the requested size was
/// committed; any other window takes the size, and a floating window with a floating size
/// records it. Returns the window and whether the pending resize is finished.
pub open spec fn normal_commit(window: LifecycleWindowView, width: u32, height: u32) -> (
    LifecycleWindowView,
    bool,
) {
    let plain = (
        LifecycleWindowView {
            scene_geometry: WindowSceneGeometry { width, height, ..window.scene_geometry },
            placement: if window.layout == WindowLayout::Floating && window.placement.floating_size is Some {
                WindowPlacement { floating_size: Some(WindowSize { width, height }), ..window.placement }
            } else {
                window.placement
            },
            ..window
        },
        false,
    );
    if window.hints.client_driven_resize {
        match window.pending_resize {
            Some(pending) => match pending.inflight_geometry {
                Some(inflight) => {
                    let applied = geometry_committed(
                        window,
                        anchored_commit(inflight, width, height, pending.edges),
                    );
                    if pending.requested_geometry == inflight {
                        (applied, true)
                    } else {
                        (
                            LifecycleWindowView {
                                pending_resize: Some(
                                    PendingInteractiveResize { inflight_geometry: None, ..pending },
                                ),
                                ..applied
                            },
                            false,
                        )
                    }
                },
                None => (
                    geometry_committed(
                        window,
                        anchored_commit(pending.requested_geometry, width, height, pending.edges),
                    ),
                    pending.requested_geometry.width == width && pending.requested_geometry.height
                        == height,
                ),
            },
            None => plain,
        }
    } else {
        plain
    }
}

/// A commit of `width x height` on a maximized, fullscreen or hidden window: the size goes to
/// the top restore frame, which is centred in `area` when it floats and still looks unplaced.
pub open spec fn restore_point_commit(
    window: LifecycleWindowView,
    width: u32,
    height: u32,
    area: WorkArea,
) -> LifecycleWindowView {
    if window.frames.len() > 0 {
        let top = window.frames.last();
        let sized = WindowSceneGeometry { width, height, ..top.geometry };
        let placed = if top.layout == WindowLayout::Floating && window.placement.floating_position
            is None && sized.x == 0 && sized.y == 0 {
            WindowSceneGeometry {
                x: crate::floating::centred(0, area.x, area.width, width),
                y: crate::floating::centred(0, area.y, area.height, height),
                ..sized
            }
        } else {
            sized
        };
        LifecycleWindowView {
            frames: window.frames.update(
                window.frames.len() - 1,
                WindowRestoreState { geometry: placed, ..top },
            ),
            ..window
        }
    } else {
        window
    }
}

/// Result of a committed size (sides of at least one): see [`normal_commit`] and
/// [`restore_point_commit`].
pub open spec fn committed_size_spec(
    window: LifecycleWindowView,
    width: u32,
    height: u32,
    area: WorkArea,
) -> (LifecycleWindowView, bool) {
    let width = if width == 0 { 1 } else { width };
    let height = if height == 0 { 1 } else { height };
    if window.mode == WindowMode::Maximized || window.mode == WindowMode::Fullscreen || window.mode
        == WindowMode::Hidden {
        (restore_point_commit(window, width, height, area), false)
    } else {
        normal_commit(window, width, height)
    }
}

fn commit_normal(window: &mut LifecycleWindow, width: u32, height: u32) -> (finished: bool)
    ensures
        (final(window)@, finished) == normal_commit(old(window)@, width, height),
{
    if window.hints.client_driven_resize {
        if let Some(pending) = window.pending_resize {
            if let Some(inflight) = pending.inflight_geometry {
                let committed = anchored_resize_commit_geometry(&inflight, width, height, pending.edges);
                apply_committed_geometry(window, &committed);
                if pending.requested_geometry == inflight {
                    return true;
                }
                window.pending_resize = Some(
                    PendingInteractiveResize { inflight_geometry: None, ..pending },
                );
                return false;
            } else {
                let committed = anchored_resize_commit_geometry(
                    &pending.requested_geometry,
                    width,
                    height,
                    pending.edges,
                );
                apply_committed_geometry(window, &committed);
                return pending.requested_geometry.width == width
                    && pending.requested_geometry.height == height;
            }
        }
    }
    window.state.scene_geometry.width = width;
    window.state.scene_geometry.height = height;
    if window.state.layout == WindowLayout::Floating && window.placement.floating_size.is_some() {
        window.placement.floating_size = Some(WindowSize { width, height });
    }
    false
}

fn commit_restore_point(window: &mut LifecycleWindow, width: u32, height: u32, area: WorkArea)
    ensures
        final(window)@ == restore_point_commit(old(window)@, width, height, area),
{
    let count = window.restore.frames.len();
    if count == 0 {
        return;
    }
    let top = window.restore.frames.pop().unwrap();
    let mut geometry = WindowSceneGeometry { width, height, ..top.geometry };
    if top.layout == WindowLayout::Floating && crate::floating::should_auto_place_floating_window(
        &window.placement,
        &geometry,
    ) {
        geometry.x = crate::floating::centre_x(&area, 0, width);
        geometry.y = crate::floating::centre_y(&area, 0, height);
    }
    let frame = WindowRestoreState { geometry, ..top };
    window.restore.frames.push(frame);
    assert(window.restore.frames@ =~= old(window).restore.frames@.update(count - 1, frame));
}

/// Applies a client commit: records the buffer attachment, bumps the content version (wrapping),
/// and, with a committed size, applies it (see [`committed_size_spec`]; `area` is the placement
/// area of the window's output, used to centre an unplaced floating restore point). Returns
/// whether the pending interactive resize is finished.
pub fn apply_committed_window_state(
    window: &mut LifecycleWindow,
    size: Option<(u32, u32)>,
    attached: bool,
    area: WorkArea,
) -> (finished: bool)
    ensures
        ({
            let bumped = LifecycleWindowView {
                buffer_attached: match old(window).buffer_attached {
                    Some(_) => Some(attached),
                    None => None,
                },
                content_version: if old(window).content_version == u64::MAX {
                    0
                } else {
                    (old(window).content_version + 1) as u64
                },
                ..old(window)@
            };
            match size {
                None => final(window)@ == bumped && !finished,
                Some((width, height)) => (final(window)@, finished) == committed_size_spec(
                    bumped,
                    width,
                    height,
                    area,
                ),
            }
        }),
{
    if window.buffer_attached.is_some() {
        window.buffer_attached = Some(attached);
    }
    window.content_version = if window.content_version == u64::MAX {
        0
    } else {
        window.content_version + 1
    };
    let (width, height) = match size {
        Some(size) => size,
        None => return false,
    };
    let width: u32 = if width == 0 { 1 } else { width };
    let height: u32 = if height == 0 { 1 } else { height };
    if window.state.mode == WindowMode::Maximized || window.state.mode == WindowMode::Fullscreen
        || window.state.mode == WindowMode::Hidden {
        commit_restore_point(window, width, height, area);
        false
    } else {
        commit_normal(window, width, height)
    }
}

/// Request of the window manager on behalf of a client.
#[derive(Clone, Debug, PartialEq, Eq)]
pub enum WindowManagerRequest {
    BeginMove,
    BeginResize { edges: ResizeEdges },
    Maximize,
    UnMaximize,
    UnFullscreen,
    UnMinimize,
    Fullscreen { output_name: Option<String> },
    Minimize,
}

/// The temporary-mode part of a window value.
pub open spec fn lifecycle_mode_state(window: LifecycleWindowView) -> TemporaryModeState {
    TemporaryModeState {
        scene_geometry: window.scene_geometry,
        fullscreen_output: window.fullscreen_output,
        frames: window.frames,
        layout: window.layout,
        mode: window.mode,
    }
}

/// A window value with its temporary-mode part replaced.
pub open spec fn with_lifecycle_mode_state(window: LifecycleWindowView, state: TemporaryModeState) -> LifecycleWindowView {
    LifecycleWindowView {
        scene_geometry: state.scene_geometry,
        fullscreen_output: state.fullscreen_output,
        frames: state.frames,
        layout: state.layout,
        mode: state.mode,
        ..window
    }
}

/// Window, focus and grab after a window-manager request. Output backgrounds ignore requests.
/// Beginning a move / resize floats the window (normal, policy pinned) unless it bypasses window
/// rules, focuses it and begins the grab; maximize / fullscreen enter the temporary mode and focus
/// the window; unmaximize / unfullscreen / unminimize restore; minimize hides the window.
pub open spec fn manager_request_step(
    window: LifecycleWindowView,
    request: WindowManagerRequest,
    focus: Option<u64>,
    grab: Option<GrabStart>,
) -> (LifecycleWindowView, Option<u64>, Option<GrabStart>) {
    let surface = window.surface_id;
    let floated = if window.hints.bypass_window_rules {
        window
    } else {
        LifecycleWindowView {
            layout: WindowLayout::Floating,
            mode: WindowMode::Normal,
            policy: WindowPolicyState {
                applied: WindowPolicy { layout: WindowLayout::Floating, mode: WindowMode::Normal },
                locked: true,
            },
            ..window
        }
    };
    if window.role == WindowRole::OutputBackground {
        (window, focus, grab)
    } else {
        match request {
            WindowManagerRequest::BeginMove => (
                floated,
                Some(surface),
                Some(
                    GrabStart {
                        surface_id: surface,
                        mode: WindowGrabMode::Move,
                        start_scene_geometry: window.scene_geometry,
                    },
                ),
            ),
            WindowManagerRequest::BeginResize { edges } => (
                floated,
                Some(surface),
                Some(
                    GrabStart {
                        surface_id: surface,
                        mode: WindowGrabMode::Resize { edges },
                        start_scene_geometry: window.scene_geometry,
                    },
                ),
            ),
            WindowManagerRequest::Maximize => (
                with_lifecycle_mode_state(
                    window,
                    entered(lifecycle_mode_state(window), WindowMode::Maximized, None),
                ),
                Some(surface),
                grab,
            ),
            WindowManagerRequest::Fullscreen { output_name } => (
                with_lifecycle_mode_state(
                    window,
                    entered(lifecycle_mode_state(window), WindowMode::Fullscreen, output_name),
                ),
                Some(surface),
                grab,
            ),
            WindowManagerRequest::Minimize => (
                LifecycleWindowView { mode: WindowMode::Hidden, ..window },
                focus,
                grab,
            ),
            _ => (
                with_lifecycle_mode_state(
                    window,
                    restored(lifecycle_mode_state(window), window.policy.applied),
                ),
                focus,
                grab,
            ),
        }
    }
}

/// Applies a window-manager request; see [`manager_request_step`].
pub fn apply_window_manager_request(
    window: &mut LifecycleWindow,
    request: &WindowManagerRequest,
    focus: &mut Option<u64>,
    grab: &mut Option<GrabStart>,
)
    ensures
        (final(window)@, *final(focus), *final(grab)) == manager_request_step(
            old(window)@,
            *request,
            *old(focus),
            *old(grab),
        ),
{
    if window.state.role == WindowRole::OutputBackground {
        return;
    }
    let surface = window.surface_id;
    match request {
        WindowManagerRequest::BeginMove | WindowManagerRequest::BeginResize { .. } => {
            if !window.hints.bypass_window_rules {
                window.state.layout = WindowLayout::Floating;
                window.state.mode = WindowMode::Normal;
                lock_window_policy(window.state.layout, window.state.mode, &mut window.policy);
            }
            *focus = Some(surface);
            let mode = match request {
                WindowManagerRequest::BeginResize { edges } => WindowGrabMode::Resize { edges: *edges },
                _ => WindowGrabMode::Move,
            };
            *grab = Some(
                GrabStart { surface_id: surface, mode, start_scene_geometry: window.state.scene_geometry },
            );
        },
        WindowManagerRequest::Maximize => {
            let scene = window.state.scene_geometry;
            enter_temporary_window_mode(
                &scene,
                &mut window.state.fullscreen_target,
                &mut window.restore,
                window.state.layout,
                &mut window.state.mode,
                WindowMode::Maximized,
                None,
            );
            *focus = Some(surface);
        },
        WindowManagerRequest::Fullscreen { output_name } => {
            let scene = window.state.scene_geometry;
            let target = crate::window_policy::clone_output_name(output_name);
            enter_temporary_window_mode(
                &scene,
                &mut window.state.fullscreen_target,
                &mut window.restore,
                window.state.layout,
                &mut window.state.mode,
                WindowMode::Fullscreen,
                target,
            );
            *focus = Some(surface);
        },
        WindowManagerRequest::Minimize => {
            window.state.mode = WindowMode::Hidden;
        },
        _ => {
            let policy = window.policy;
            restore_window_state(
                &policy,
                &mut window.state.scene_geometry,
                &mut window.state.fullscreen_target,
                &mut window.restore,
                &mut window.state.layout,
                &mut window.state.mode,
            );
        },
    }
}

/// A popup and the entity it is parented to.
#[derive(Clone, Copy, Debug, PartialEq, Eq, Structural)]
pub struct PopupChild {
    pub surface_id: u64,
    pub parent: u64,
}

/// Popups of `parent` to dismiss, in order, each surface once.
pub open spec fn dismissed_popups(popups: Seq<PopupChild>, parent: u64) -> Seq<u64>
    decreases popups.len(),
{
    if popups.len() == 0 {
        seq![]
    } else {
        let rest = dismissed_popups(popups.drop_last(), parent);
        let popup = popups.last();
        if popup.parent == parent && !rest.contains(popup.surface_id) {
            rest.push(popup.surface_id)
        } else {
            rest
        }
    }
}

/// Surfaces of the popups of a window to dismiss before the window goes: each popup parented to
/// the window's entity, once; none when the window has no entity.
pub fn enqueue_popup_dismissals(parent_entity: Option<u64>, popups: &Vec<PopupChild>) -> (dismissed:
    Vec<u64>)
    ensures
        match parent_entity {
            Some(parent) => dismissed@ == dismissed_popups(popups@, parent),
            None => dismissed@.len() == 0,
        },
{
    let mut dismissed: Vec<u64> = Vec::new();
    let parent = match parent_entity {
        Some(parent) => parent,
        None => return dismissed,
    };
    let mut seen: BTreeSet<u64> = BTreeSet::new();
    let mut i: usize = 0;
    while i < popups.len()
        invariant
            i <= popups@.len(),
            dismissed@ == dismissed_popups(popups@.take(i as int), parent),
            forall|s: u64| seen@.contains(s) <==> dismissed@.contains(s),
        decreases popups.len() - i,
    {
        proof {
            assert(popups@.take(i + 1).drop_last() =~= popups@.take(i as int));
        }
        let popup = popups[i];
        if popup.parent == parent && !seen.contains(&popup.surface_id) {
            seen.insert(popup.surface_id);
            let ghost before = dismissed@;
            dismissed.push(popup.surface_id);
            proof {
                assert forall|s: u64| seen@.contains(s) <==> dismissed@.contains(s) by {
                    if before.contains(s) {
                        let k = choose|k: int| 0 <= k < before.len() && before[k] == s;
                        assert(dismissed@[k] == s);
                    }
                    if dismissed@.contains(s) && s != popup.surface_id {
                        let k = choose|k: int| 0 <= k < dismissed@.len() && dismissed@[k] == s;
                        assert(k < before.len());
                        assert(before[k] == s);
                    }
                    assert(dismissed@[before.len() as int] == popup.surface_id);
                }
            }
        }
        i += 1;
    }
    assert(popups@.take(i as int) =~= popups@);
    dismissed
}

/// Effects of closing a window: dismiss its popups, despawn it, report it closed.
pub struct WindowDestroy {
    pub dismissed_popups: Vec<u64>,
    pub despawn: u64,
    pub closed_surface: u64,
}

/// Closes a window: nothing when it has no entity; else its popups (children of its indexed
/// entity) are dismissed, each once, and the window is despawned and reported closed.
pub fn destroy_window(
    surface_id: u64,
    window_entity: Option<u64>,
    indexed_entity: Option<u64>,
    popups: &Vec<PopupChild>,
) -> (destroy: Option<WindowDestroy>)
    ensures
        match window_entity {
            None => destroy is None,
            Some(entity) => destroy matches Some(destroy) && destroy.despawn == entity
                && destroy.closed_surface == surface_id && match indexed_entity {
                Some(parent) => destroy.dismissed_popups@ == dismissed_popups(popups@, parent),
                None => destroy.dismissed_popups@.len() == 0,
            },
        },
{
    let entity = match window_entity {
        Some(entity) => entity,
        None => return None,
    };
    let dismissed = enqueue_popup_dismissals(indexed_entity, popups);
    Some(WindowDestroy { dismissed_popups: dismissed, despawn: entity, closed_surface: surface_id })
}

/// Closing a window dismisses each of its popups at most once, even when a popup is listed twice.
pub proof fn law_popup_dismissals_are_unique(popups: Seq<PopupChild>, parent: u64)
    ensures
        dismissed_popups(popups, parent).no_duplicates(),
    decreases popups.len(),
{
    if popups.len() > 0 {
        law_popup_dismissals_are_unique(popups.drop_last(), parent);
    }
}

} // verus!

//! The per-tick window event loop: client upserts, commits, window-manager requests and closes
//! are applied to the windows in arrival order, and a request whose window does not exist yet
//! waits for a later tick instead of being dropped.
//!
//! Structural changes (spawning and despawning windows, attaching them to workspaces, background
//! components, finished resizes, popup dismissals) are returned as effects that take hold after
//! the tick, so a window created by one request is not yet visible to the requests after it.
//! Window rules belong to the compositor configuration: the loop asks a resolver for the rule of
//! each upsert's subject.

#[allow(unused_imports)]
use vstd::prelude::*;
use std::collections::BTreeSet;
use crate::configure::GrabStart;
use crate::floating::{placement_area, placement_area_for_workspace, window_output};
use crate::lifecycle::{
    apply_committed_window_state, apply_window_manager_request, committed_size_spec, destroy_window,
    dismissed_popups, manager_request_step, new_window, policy_refreshed, resolved_app_id,
    resolved_title, role_synced, rule_subject, upsert_geometry, upsert_placed, upsert_rule_subject,
    upsert_window, upserted_existing, LifecycleWindow, LifecycleWindowView, PopupChild,
    UpsertOutcome, WindowManagementHints, WindowManagerRequest,
};
use crate::model::{OutputRecord, WindowSceneGeometry, WorkArea};
use crate::search::{first_index, first_index_from};
use crate::window_policy::{BackgroundRoleChange, WindowPolicy};

verus! {

/// A window and the entity that holds it.
pub struct WindowEntity {
    pub entity: u64,
    pub window: LifecycleWindow,
}

/// Mathematical value of a [`WindowEntity`].
pub struct WindowEntityView {
    pub entity: u64,
    pub window: LifecycleWindowView,
}

impl View for WindowEntity {
    type V = WindowEntityView;

    open spec fn view(&self) -> WindowEntityView {
        WindowEntityView { entity: self.entity, window: self.window@ }
    }
}

/// What a client asked of the window of a surface.
pub enum WindowEvent {
    /// Metadata (and possibly geometry) of a window, creating it when it does not exist yet.
    Upsert {
        title: Option<String>,
        app_id: Option<String>,
        hints: WindowManagementHints,
        scene_geometry: Option<WindowSceneGeometry>,
        attached: bool,
    },
    /// A commit, with the committed size when the client sent one.
    Committed { size: Option<(u32, u32)>, attached: bool },
    /// A request to the window manager.
    ManagerRequest(WindowManagerRequest),
    /// The surface is gone.
    Closed,
}

/// A window event of one surface.
pub struct WindowEventRequest {
    pub surface_id: u64,
    pub action: WindowEvent,
}

/// Application id, title and hints whose window rules an upsert applies.
pub struct WindowRuleSubject {
    pub app_id: String,
    pub title: String,
    pub hints: WindowManagementHints,
}

/// Mathematical value of a [`WindowRuleSubject`].
pub struct WindowRuleSubjectView {
    pub app_id: Seq<char>,
    pub title: Seq<char>,
    pub hints: WindowManagementHints,
}

impl View for WindowRuleSubject {
    type V = WindowRuleSubjectView;

    open spec fn view(&self) -> WindowRuleSubjectView {
        WindowRuleSubjectView { app_id: self.app_id@, title: self.title@, hints: self.hints }
    }
}

/// What the window rules give a subject: its policy and the output it is the background of.
#[derive(Clone, Copy, Debug, PartialEq, Eq, Structural)]
pub struct RuleResolution {
    pub policy: WindowPolicy,
    pub background_output: Option<u64>,
}

/// A change that takes hold after the tick.
pub enum LifecycleEffect {
    /// Spawn a window (attached to the active workspace, if any) and report it created.
    Spawn { window: LifecycleWindow, background: BackgroundRoleChange },
    /// Apply a background-component change to a window.
    Background { entity: u64, change: BackgroundRoleChange },
    /// Attach a window to a workspace.
    Parent { entity: u64, workspace: u64 },
    /// Report that a window moved.
    Moved { surface_id: u64, x: i64, y: i64 },
    /// Drop a window's pending interactive resize.
    FinishResize { entity: u64 },
    /// Dismiss a popup.
    DismissPopup { surface_id: u64 },
    /// Despawn a window and report it closed.
    Despawn { entity: u64, surface_id: u64 },
}

/// Mathematical value of a [`LifecycleEffect`].
pub enum LifecycleEffectView {
    Spawn { window: LifecycleWindowView, background: BackgroundRoleChange },
    Background { entity: u64, change: BackgroundRoleChange },
    Parent { entity: u64, workspace: u64 },
    Moved { surface_id: u64, x: i64, y: i64 },
    FinishResize { entity: u64 },
    DismissPopup { surface_id: u64 },
    Despawn { entity: u64, surface_id: u64 },
}

impl View for LifecycleEffect {
    type V = LifecycleEffectView;

    open spec fn view(&self) -> LifecycleEffectView {
        match self {
            LifecycleEffect::Spawn { window, background } => LifecycleEffectView::Spawn {
                window: window@,
                background: *background,
            },
            LifecycleEffect::Background { entity, change } => LifecycleEffectView::Background {
                entity: *entity,
                change: *change,
            },
            LifecycleEffect::Parent { entity, workspace } => LifecycleEffectView::Parent {
                entity: *entity,
                workspace: *workspace,
            },
            LifecycleEffect::Moved { surface_id, x, y } => LifecycleEffectView::Moved {
                surface_id: *surface_id,
                x: *x,
                y: *y,
            },
            LifecycleEffect::FinishResize { entity } => LifecycleEffectView::FinishResize {
                entity: *entity,
            },
            LifecycleEffect::DismissPopup { surface_id } => LifecycleEffectView::DismissPopup {
                surface_id: *surface_id,
            },
            LifecycleEffect::Despawn { entity, surface_id } => LifecycleEffectView::Despawn {
                entity: *entity,
                surface_id: *surface_id,
            },
        }
    }
}

/// A workspace entity and its workspace id.
#[derive(Clone, Copy, Debug, PartialEq, Eq, Structural)]
pub struct WorkspaceRef {
    pub entity: u64,
    pub id: u32,
}

/// What the loop reads of the rest of the world.
pub struct LifecycleEnv {
    pub outputs: Vec<OutputRecord>,
    pub workspaces: Vec<WorkspaceRef>,
    pub popups: Vec<PopupChild>,
    pub primary_output: Option<u64>,
    pub work_area: WorkArea,
    /// Workspace that new windows are attached to.
    pub active_workspace: Option<u64>,
}

/// State of the loop during a tick.
pub struct WindowLifecycleRun {
    pub windows: Vec<WindowEntity>,
    pub known_surfaces: BTreeSet<u64>,
    pub focus: Option<u64>,
    pub grab: Option<GrabStart>,
    pub effects: Vec<LifecycleEffect>,
    /// Requests that wait for a later tick, in arrival order.
    pub deferred: Vec<WindowEventRequest>,
}

/// Mathematical value of a [`WindowLifecycleRun`].
pub struct LifecycleRunView {
    pub windows: Seq<WindowEntityView>,
    pub known: Set<u64>,
    pub focus: Option<u64>,
    pub grab: Option<GrabStart>,
    pub effects: Seq<LifecycleEffectView>,
    pub deferred: Seq<WindowEventRequest>,
}

/// Values of a sequence of window entities.
pub open spec fn entity_views(windows: Seq<WindowEntity>) -> Seq<WindowEntityView> {
    windows.map_values(|w: WindowEntity| w@)
}

/// Values of a sequence of effects.
pub open spec fn effect_views(effects: Seq<LifecycleEffect>) -> Seq<LifecycleEffectView> {
    effects.map_values(|e: LifecycleEffect| e@)
}

impl View for WindowLifecycleRun {
    type V = LifecycleRunView;

    open spec fn view(&self) -> LifecycleRunView {
        LifecycleRunView {
            windows: entity_views(self.windows@),
            known: self.known_surfaces@,
            focus: self.focus,
            grab: self.grab,
            effects: effect_views(self.effects@),
            deferred: self.deferred@,
        }
    }
}

/// Whether a window entity holds the window of `surface_id`.
pub open spec fn holds_surface(surface_id: u64) -> spec_fn(WindowEntityView) -> bool {
    |w: WindowEntityView| w.window.surface_id == surface_id
}

/// Index of the window of a surface: the first that holds it.
pub open spec fn window_slot(windows: Seq<WindowEntityView>, surface_id: u64) -> Option<int> {
    first_index(windows, holds_surface(surface_id))
}

/// Whether a workspace reference names `entity`.
pub open spec fn names_entity(entity: u64) -> spec_fn(WorkspaceRef) -> bool {
    |w: WorkspaceRef| w.entity == entity
}

/// Workspace id of a window's parent entity, when that entity is a workspace.
pub open spec fn workspace_of(workspaces: Seq<WorkspaceRef>, parent: Option<u64>) -> Option<u32> {
    match parent {
        None => None,
        Some(entity) => match first_index(workspaces, names_entity(entity)) {
            Some(k) => Some(workspaces[k].id),
            None => None,
        },
    }
}

/// Area a commit centres an unplaced floating restore point in: the placement area of the
/// output of the window's workspace, else the work area.
pub open spec fn commit_area(env: LifecycleEnv, parent: Option<u64>) -> WorkArea {
    match window_output(env.outputs@, workspace_of(env.workspaces@, parent), env.primary_output) {
        Some(o) => placement_area(env.outputs@[o].work_area, Some(env.outputs@[o].properties)),
        None => env.work_area,
    }
}

/// Surfaces of a sequence of windows.
pub open spec fn surfaces_of(windows: Seq<WindowEntityView>) -> Set<u64>
    decreases windows.len(),
{
    if windows.len() == 0 {
        Set::empty()
    } else {
        surfaces_of(windows.drop_last()).insert(windows.last().window.surface_id)
    }
}

/// Dismissal effects of popup surfaces, in order.
pub open spec fn dismissals(surfaces: Seq<u64>) -> Seq<LifecycleEffectView> {
    surfaces.map_values(|s: u64| LifecycleEffectView::DismissPopup { surface_id: s })
}

/// The run with a request put off to a later tick.
pub open spec fn deferring(run: LifecycleRunView, request: WindowEventRequest) -> LifecycleRunView {
    LifecycleRunView { deferred: run.deferred.push(request), ..run }
}

/// A close: the surface is forgotten; its window, if any, has its popups dismissed (each once)
/// and is despawned. A close never waits.
pub open spec fn closed_step(run: LifecycleRunView, surface_id: u64, env: LifecycleEnv) -> LifecycleRunView {
    let known = run.known.remove(surface_id);
    match window_slot(run.windows, surface_id) {
        None => LifecycleRunView { known, ..run },
        Some(i) => {
            let entity = run.windows[i].entity;
            LifecycleRunView {
                known,
                effects: (run.effects + dismissals(dismissed_popups(env.popups@, entity))).push(LifecycleEffectView::Despawn { entity, surface_id }),
                ..run
            }
        },
    }
}

/// A window after a commit: the buffer attachment recorded, the content version bumped
/// (wrapping), and a committed size applied; also whether a pending interactive resize finished.
pub open spec fn window_committed(
    window: LifecycleWindowView,
    size: Option<(u32, u32)>,
    attached: bool,
    area: WorkArea,
) -> (LifecycleWindowView, bool) {
    let bumped = LifecycleWindowView {
        buffer_attached: match window.buffer_attached {
            Some(_) => Some(attached),
            None => None,
        },
        content_version: if window.content_version == u64::MAX {
            0
        } else {
            (window.content_version + 1) as u64
        },
        ..window
    };
    match size {
        None => (bumped, false),
        Some((width, height)) => committed_size_spec(bumped, width, height, area),
    }
}

/// A commit: waits while the surface has no window; else the window takes the commit (see
/// [`window_committed`], centring in [`commit_area`]) and a finished resize is dropped.
pub open spec fn committed_step(
    run: LifecycleRunView,
    request: WindowEventRequest,
    size: Option<(u32, u32)>,
    attached: bool,
    env: LifecycleEnv,
) -> LifecycleRunView {
    match window_slot(run.windows, request.surface_id) {
        None => deferring(run, request),
        Some(i) => {
            let w = run.windows[i];
            let (after, finished) = window_committed(
                w.window,
                size,
                attached,
                commit_area(env, w.window.parent),
            );
            LifecycleRunView {
                windows: run.windows.update(i, WindowEntityView { window: after, ..w }),
                effects: if finished {
                    run.effects.push(LifecycleEffectView::FinishResize { entity: w.entity })
                } else {
                    run.effects
                },
                ..run
            }
        },
    }
}

/// A window-manager request: waits while the surface has no window; else applied to the window,
/// the keyboard focus and the grab (see [`manager_request_step`]).
pub open spec fn manager_step(
    run: LifecycleRunView,
    request: WindowEventRequest,
    manager_request: WindowManagerRequest,
) -> LifecycleRunView {
    match window_slot(run.windows, request.surface_id) {
        None => deferring(run, request),
        Some(i) => {
            let w = run.windows[i];
            let (after, focus, grab) = manager_request_step(w.window, manager_request, run.focus, run.grab);
            LifecycleRunView {
                windows: run.windows.update(i, WindowEntityView { window: after, ..w }),
                focus,
                grab,
                ..run
            }
        },
    }
}

/// The window of a surface, if any.
pub open spec fn existing_window(run: LifecycleRunView, surface_id: u64) -> Option<LifecycleWindowView> {
    match window_slot(run.windows, surface_id) {
        Some(i) => Some(run.windows[i].window),
        None => None,
    }
}

/// Subject whose window rules a request needs: for an upsert, its (or its window's) application
/// id and title (see [`rule_subject`]) with the upsert's hints; none otherwise, and none for an
/// upsert that will wait.
pub open spec fn request_subject(run: LifecycleRunView, request: WindowEventRequest) -> Option<
    WindowRuleSubjectView,
> {
    match request.action {
        WindowEvent::Upsert { title, app_id, hints, scene_geometry, .. } => match rule_subject(
            request.surface_id,
            title,
            app_id,
            scene_geometry,
            run.known,
            existing_window(run, request.surface_id),
        ) {
            Some((app, name)) => Some(WindowRuleSubjectView { app_id: app, title: name, hints }),
            None => None,
        },
        _ => None,
    }
}

/// Metadata-only upsert on the window at `i`: title, application id and hints updated, rules
/// refreshed and the background role synced.
pub open spec fn upsert_metadata_step(
    run: LifecycleRunView,
    i: int,
    title: Option<String>,
    app_id: Option<String>,
    hints: WindowManagementHints,
    res: RuleResolution,
) -> LifecycleRunView {
    let w = run.windows[i];
    let updated = LifecycleWindowView {
        title: match title {
            Some(title) => title@,
            None => w.window.title,
        },
        app_id: match app_id {
            Some(app_id) => app_id@,
            None => w.window.app_id,
        },
        hints,
        ..w.window
    };
    let (change, after) = role_synced(policy_refreshed(updated, res.policy), res.background_output);
    LifecycleRunView {
        windows: run.windows.update(i, WindowEntityView { window: after, ..w }),
        effects: run.effects.push(LifecycleEffectView::Background { entity: w.entity, change }),
        ..run
    }
}

/// Upsert with geometry on the window at `i`: see [`upsert_window`]; the window is reported
/// moved when its origin changes and attached to the active workspace when it has no parent.
pub open spec fn upsert_existing_step(
    run: LifecycleRunView,
    i: int,
    surface_id: u64,
    title: Option<String>,
    app_id: Option<String>,
    hints: WindowManagementHints,
    geometry: WindowSceneGeometry,
    attached: bool,
    env: LifecycleEnv,
    res: RuleResolution,
) -> LifecycleRunView {
    let w = run.windows[i];
    let window = w.window;
    let allow = !window.hints.client_driven_resize || window.content_version == 0;
    let refreshed = upserted_existing(
        window,
        resolved_title(surface_id, title),
        resolved_app_id(app_id),
        hints,
        attached,
        res.policy,
    );
    let (change, synced) = role_synced(refreshed, res.background_output);
    let with_background = run.effects.push(LifecycleEffectView::Background { entity: w.entity, change });
    let with_move = if window.scene_geometry.x != geometry.x || window.scene_geometry.y != geometry.y {
        with_background.push(
            LifecycleEffectView::Moved { surface_id, x: geometry.x as i64, y: geometry.y as i64 },
        )
    } else {
        with_background
    };
    let effects = match (window.parent, env.active_workspace) {
        (None, Some(workspace)) => with_move.push(
            LifecycleEffectView::Parent { entity: w.entity, workspace },
        ),
        _ => with_move,
    };
    LifecycleRunView {
        windows: run.windows.update(
            i,
            WindowEntityView { window: upsert_placed(synced, geometry, allow), ..w },
        ),
        known: run.known.insert(surface_id),
        effects,
        ..run
    }
}

/// Upsert with geometry for a surface without a window: a new window is spawned (see
/// [`new_window`]), attached to the active workspace.
pub open spec fn upsert_new_step(
    run: LifecycleRunView,
    surface_id: u64,
    title: Option<String>,
    app_id: Option<String>,
    hints: WindowManagementHints,
    geometry: WindowSceneGeometry,
    attached: bool,
    env: LifecycleEnv,
    res: RuleResolution,
) -> LifecycleRunView {
    let fresh = new_window(
        surface_id,
        resolved_title(surface_id, title),
        resolved_app_id(app_id),
        hints,
        geometry,
        attached,
        res.policy,
        env.active_workspace,
    );
    let (change, created) = role_synced(fresh, res.background_output);
    LifecycleRunView {
        known: run.known.insert(surface_id),
        effects: run.effects.push(LifecycleEffectView::Spawn { window: created, background: change }),
        ..run
    }
}

/// An upsert with the resolution of its subject: without geometry only an existing window's
/// metadata and rules are refreshed (it waits when there is no window); with geometry the
/// existing window is updated or a new one spawned, and the surface becomes known.
pub open spec fn upsert_step(
    run: LifecycleRunView,
    request: WindowEventRequest,
    title: Option<String>,
    app_id: Option<String>,
    hints: WindowManagementHints,
    scene_geometry: Option<WindowSceneGeometry>,
    attached: bool,
    env: LifecycleEnv,
    res: RuleResolution,
) -> LifecycleRunView {
    let surface_id = request.surface_id;
    match (upsert_geometry(surface_id, scene_geometry, run.known), window_slot(run.windows, surface_id)) {
        (None, None) => deferring(run, request),
        (None, Some(i)) => upsert_metadata_step(run, i, title, app_id, hints, res),
        (Some(geometry), Some(i)) => upsert_existing_step(
            run,
            i,
            surface_id,
            title,
            app_id,
            hints,
            geometry,
            attached,
            env,
            res,
        ),
        (Some(geometry), None) => upsert_new_step(
            run,
            surface_id,
            title,
            app_id,
            hints,
            geometry,
            attached,
            env,
            res,
        ),
    }
}

/// An upsert: waits when it has no subject (no geometry and no window) or no resolution;
/// else see [`upsert_step`].
pub open spec fn upsert_request_step(
    run: LifecycleRunView,
    request: WindowEventRequest,
    env: LifecycleEnv,
    resolution: Option<RuleResolution>,
) -> LifecycleRunView {
    match request.action {
        WindowEvent::Upsert { title, app_id, hints, scene_geometry, attached } => match (
            request_subject(run, request),
            resolution,
        ) {
            (Some(_), Some(res)) => upsert_step(
                run,
                request,
                title,
                app_id,
                hints,
                scene_geometry,
                attached,
                env,
                res,
            ),
            _ => deferring(run, request),
        },
        _ => run,
    }
}

/// One request of the tick, with the resolution of its subject when it has one: an upsert (see
/// [`upsert_request_step`]), a commit (see [`committed_step`]), a window-manager request (see
/// [`manager_step`]) or a close (see [`closed_step`]).
pub open spec fn lifecycle_step(
    run: LifecycleRunView,
    request: WindowEventRequest,
    env: LifecycleEnv,
    resolution: Option<RuleResolution>,
) -> LifecycleRunView {
    match request.action {
        WindowEvent::Upsert { .. } => upsert_request_step(run, request, env, resolution),
        WindowEvent::Committed { size, attached } => committed_step(run, request, size, attached, env),
        WindowEvent::ManagerRequest(manager_request) => manager_step(run, request, manager_request),
        WindowEvent::Closed => closed_step(run, request.surface_id, env),
    }
}

/// Whether a rule resolver can be asked about every subject and gives subjects of equal value
/// equal resolutions, as window rules of a configuration do.
pub open spec fn resolves_consistently<F: Fn(&WindowRuleSubject) -> RuleResolution>(resolve: F) -> bool {
    &&& forall|subject: WindowRuleSubject| #[trigger] call_requires(resolve, (&subject,))
    &&& forall|a: WindowRuleSubject, b: WindowRuleSubject, x: RuleResolution, y: RuleResolution|
        #[trigger] call_ensures(resolve, (&a,), x) && #[trigger] call_ensures(resolve, (&b,), y) && a@
            == b@ ==> x == y
}

/// Resolution a resolver gives a subject value.
pub open spec fn resolution_of<F: Fn(&WindowRuleSubject) -> RuleResolution>(
    resolve: F,
    subject: WindowRuleSubjectView,
) -> RuleResolution {
    answered(resolve, subject).1
}

/// A subject of the given value and a resolution the resolver gives it.
pub open spec fn answered<F: Fn(&WindowRuleSubject) -> RuleResolution>(
    resolve: F,
    subject: WindowRuleSubjectView,
) -> (WindowRuleSubject, RuleResolution) {
    choose|answer: (WindowRuleSubject, RuleResolution)|
        answer.0@ == subject && #[trigger] call_ensures(resolve, (&answer.0,), answer.1)
}

/// The requests of a tick applied in order, each upsert with the resolution of its subject.
pub open spec fn lifecycle_run<F: Fn(&WindowRuleSubject) -> RuleResolution>(
    run: LifecycleRunView,
    requests: Seq<WindowEventRequest>,
    env: LifecycleEnv,
    resolve: F,
) -> LifecycleRunView
    decreases requests.len(),
{
    if requests.len() == 0 {
        run
    } else {
        let request = requests[0];
        let resolution = match request_subject(run, request) {
            Some(subject) => Some(resolution_of(resolve, subject)),
            None => None,
        };
        lifecycle_run(lifecycle_step(run, request, env, resolution), requests.drop_first(), env, resolve)
    }
}

/// State at the start of a tick: the windows, their surfaces known, nothing deferred yet.
pub open spec fn tick_start(windows: Seq<WindowEntity>, focus: Option<u64>, grab: Option<GrabStart>) -> LifecycleRunView {
    LifecycleRunView {
        windows: entity_views(windows),
        known: surfaces_of(entity_views(windows)),
        focus,
        grab,
        effects: Seq::empty(),
        deferred: Seq::empty(),
    }
}

/// The resolution a consistent resolver returned is the one it gives the subject's value.
pub proof fn lemma_resolution<F: Fn(&WindowRuleSubject) -> RuleResolution>(
    resolve: F,
    subject: WindowRuleSubject,
    resolution: RuleResolution,
)
    requires
        resolves_consistently(resolve),
        call_ensures(resolve, (&subject,), resolution),
    ensures
        resolution_of(resolve, subject@) == resolution,
{
    let witness = (subject, resolution);
    assert(witness.0@ == subject@ && call_ensures(resolve, (&witness.0,), witness.1));
    let chosen = answered(resolve, subject@);
    assert(chosen.0@ == subject@ && call_ensures(resolve, (&chosen.0,), chosen.1));
}

/// A request that needs a window (a commit or a window-manager request) and finds none is not
/// dropped: it waits for a later tick, and nothing else changes.
pub proof fn law_request_without_window_waits(
    run: LifecycleRunView,
    request: WindowEventRequest,
    env: LifecycleEnv,
    resolution: Option<RuleResolution>,
)
    requires
        request.action is Committed || request.action is ManagerRequest,
        window_slot(run.windows, request.surface_id) is None,
    ensures
        lifecycle_step(run, request, env, resolution) == deferring(run, request),
{
}

/// A close never waits: the surface is forgotten whether or not it has a window.
pub proof fn law_close_never_waits(run: LifecycleRunView, surface_id: u64, env: LifecycleEnv)
    ensures
        ({
            let after = lifecycle_step(
                run,
                WindowEventRequest { surface_id, action: WindowEvent::Closed },
                env,
                None,
            );
            after.deferred == run.deferred && !after.known.contains(surface_id)
        }),
{
}

/// One request either takes effect or waits: the deferred requests grow by that request or not
/// at all.
pub proof fn law_step_defers_only_its_request(
    run: LifecycleRunView,
    request: WindowEventRequest,
    env: LifecycleEnv,
    resolution: Option<RuleResolution>,
)
    ensures
        lifecycle_step(run, request, env, resolution).deferred == run.deferred
            || lifecycle_step(run, request, env, resolution).deferred == run.deferred.push(request),
{
}

/// A tick keeps what was deferred before it, and every request it defers is one of its own,
/// in the order they came.
pub proof fn law_tick_defers_only_its_requests<F: Fn(&WindowRuleSubject) -> RuleResolution>(
    run: LifecycleRunView,
    requests: Seq<WindowEventRequest>,
    env: LifecycleEnv,
    resolve: F,
)
    ensures
        ({
            let after = lifecycle_run(run, requests, env, resolve);
            &&& after.deferred.len() >= run.deferred.len()
            &&& after.deferred.take(run.deferred.len() as int) == run.deferred
            &&& forall|k: int|
                run.deferred.len() <= k < after.deferred.len() ==> requests.contains(
                    #[trigger] after.deferred[k],
                )
            &&& after.deferred.len() - run.deferred.len() <= requests.len()
        }),
    decreases requests.len(),
{
    if requests.len() > 0 {
        let request = requests[0];
        let resolution = match request_subject(run, request) {
            Some(subject) => Some(resolution_of(resolve, subject)),
            None => None,
        };
        let next = lifecycle_step(run, request, env, resolution);
        law_step_defers_only_its_request(run, request, env, resolution);
        law_tick_defers_only_its_requests(next, requests.drop_first(), env, resolve);
        let after = lifecycle_run(run, requests, env, resolve);
        assert(after == lifecycle_run(next, requests.drop_first(), env, resolve));
        assert(after.deferred.take(run.deferred.len() as int) =~= run.deferred) by {
            assert(after.deferred.take(next.deferred.len() as int) == next.deferred);
            assert forall|k: int| 0 <= k < run.deferred.len() implies after.deferred[k] == run.deferred[k] by {
                assert(after.deferred.take(next.deferred.len() as int)[k] == next.deferred[k]);
            }
        }
        assert forall|k: int| run.deferred.len() <= k < after.deferred.len() implies requests.contains(
            #[trigger] after.deferred[k],
        ) by {
            if k < next.deferred.len() {
                assert(after.deferred.take(next.deferred.len() as int)[k] == next.deferred[k]);
                assert(next.deferred[k] == request);
                assert(requests[0] == request);
            } else {
                let d = after.deferred[k];
                assert(requests.drop_first().contains(d));
                let j = choose|j: int| 0 <= j < requests.drop_first().len() && requests.drop_first()[j] == d;
                assert(requests[j + 1] == d);
            }
        }
    }
}

/// Index of the window of a surface; see [`window_slot`].
pub fn find_window(windows: &Vec<WindowEntity>, surface_id: u64) -> (slot: Option<usize>)
    ensures
        match slot {
            Some(i) => i < windows@.len() && window_slot(entity_views(windows@), surface_id) == Some(
                i as int,
            ),
            None => window_slot(entity_views(windows@), surface_id) is None,
        },
{
    let ghost views = entity_views(windows@);
    let mut i: usize = 0;
    while i < windows.len()
        invariant
            i <= windows@.len(),
            views == entity_views(windows@),
            first_index_from(views, holds_surface(surface_id), 0) == first_index_from(
                views,
                holds_surface(surface_id),
                i as int,
            ),
        decreases windows.len() - i,
    {
        if windows[i].window.surface_id == surface_id {
            return Some(i);
        }
        i += 1;
    }
    None
}

/// Workspace id of a window's parent entity; see [`workspace_of`].
pub fn find_workspace_id(workspaces: &Vec<WorkspaceRef>, parent: Option<u64>) -> (id: Option<u32>)
    ensures
        id == workspace_of(workspaces@, parent),
{
    let entity = match parent {
        Some(entity) => entity,
        None => return None,
    };
    let mut k: usize = 0;
    while k < workspaces.len()
        invariant
            k <= workspaces@.len(),
            parent == Some(entity),
            first_index_from(workspaces@, names_entity(entity), 0) == first_index_from(
                workspaces@,
                names_entity(entity),
                k as int,
            ),
        decreases workspaces.len() - k,
    {
        if workspaces[k].entity == entity {
            assert(first_index_from(workspaces@, names_entity(entity), k as int) == Some(k as int));
            let id = workspaces[k].id;
            return Some(id);
        }
        k += 1;
    }
    None
}

fn take_window(run: &mut WindowLifecycleRun, i: usize) -> (entry: WindowEntity)
    requires
        i < old(run).windows@.len(),
    ensures
        entry@ == old(run)@.windows[i as int],
        final(run).windows@ == old(run).windows@.remove(i as int),
        final(run).known_surfaces@ == old(run).known_surfaces@,
        final(run).focus == old(run).focus,
        final(run).grab == old(run).grab,
        final(run).effects@ == old(run).effects@,
        final(run).deferred@ == old(run).deferred@,
{
    run.windows.remove(i)
}

fn put_window(run: &mut WindowLifecycleRun, i: usize, entry: WindowEntity, Ghost(before): Ghost<Seq<WindowEntity>>)
    requires
        i < before.len(),
        old(run).windows@ == before.remove(i as int),
    ensures
        final(run)@ == (LifecycleRunView {
            windows: entity_views(before).update(i as int, entry@),
            ..old(run)@
        }),
{
    run.windows.insert(i, entry);
    assert(run.windows@ =~= before.update(i as int, entry));
    assert(entity_views(run.windows@) =~= entity_views(before).update(i as int, entry@));
}

fn commit_window(run: &mut WindowLifecycleRun, request: WindowEventRequest, env: &LifecycleEnv)
    requires
        (request.action matches WindowEvent::Committed { .. }),
    ensures
        final(run)@ == match request.action {
            WindowEvent::Committed { size, attached } => committed_step(
                old(run)@,
                request,
                size,
                attached,
                *env,
            ),
            _ => old(run)@,
        },
{
    let (size, attached) = match &request.action {
        WindowEvent::Committed { size, attached } => (*size, *attached),
        _ => return,
    };
    let i = match find_window(&run.windows, request.surface_id) {
        Some(i) => i,
        None => {
            run.deferred.push(request);
            return;
        },
    };
    let ghost before = run.windows@;
    let mut entry = take_window(run, i);
    let workspace = find_workspace_id(&env.workspaces, entry.window.parent);
    let area = placement_area_for_workspace(&env.outputs, workspace, env.primary_output, env.work_area);
    let finished = apply_committed_window_state(&mut entry.window, size, attached, area);
    let entity = entry.entity;
    put_window(run, i, entry, Ghost(before));
    if finished {
        let ghost effects = run.effects@;
        run.effects.push(LifecycleEffect::FinishResize { entity });
        assert(effect_views(run.effects@) =~= effect_views(effects).push(
            LifecycleEffectView::FinishResize { entity },
        ));
    }
}

fn request_of_window(run: &mut WindowLifecycleRun, request: WindowEventRequest)
    requires
        (request.action matches WindowEvent::ManagerRequest(_)),
    ensures
        final(run)@ == match request.action {
            WindowEvent::ManagerRequest(manager_request) => manager_step(old(run)@, request, manager_request),
            _ => old(run)@,
        },
{
    let i = match find_window(&run.windows, request.surface_id) {
        Some(i) => i,
        None => {
            run.deferred.push(request);
            return;
        },
    };
    let manager_request = match &request.action {
        WindowEvent::ManagerRequest(manager_request) => manager_request,
        _ => return,
    };
    let ghost before = run.windows@;
    let mut entry = take_window(run, i);
    let mut focus = run.focus;
    let mut grab = run.grab;
    apply_window_manager_request(&mut entry.window, manager_request, &mut focus, &mut grab);
    put_window(run, i, entry, Ghost(before));
    run.focus = focus;
    run.grab = grab;
}

fn push_effect(run: &mut WindowLifecycleRun, effect: LifecycleEffect)
    ensures
        final(run)@ == (LifecycleRunView { effects: old(run)@.effects.push(effect@), ..old(run)@ }),
{
    run.effects.push(effect);
    assert(effect_views(run.effects@) =~= effect_views(old(run).effects@).push(effect@));
}

fn upsert_new(
    run: &mut WindowLifecycleRun,
    surface_id: u64,
    title: Option<String>,
    app_id: Option<String>,
    hints: WindowManagementHints,
    geometry: WindowSceneGeometry,
    attached: bool,
    env: &LifecycleEnv,
    res: RuleResolution,
)
    requires
        window_slot(old(run)@.windows, surface_id) is None,
    ensures
        final(run)@ == upsert_new_step(old(run)@, surface_id, title, app_id, hints, geometry, attached, *env, res),
{
    let mut existing: Option<LifecycleWindow> = None;
    let outcome = upsert_window(
        surface_id,
        title,
        app_id,
        hints,
        Some(geometry),
        attached,
        res.policy,
        res.background_output,
        env.active_workspace,
        &mut existing,
        &mut run.known_surfaces,
    );
    match outcome {
        UpsertOutcome::Created { window, background } => {
            push_effect(run, LifecycleEffect::Spawn { window, background });
        },
        _ => {},
    }
}

fn upsert_existing(
    run: &mut WindowLifecycleRun,
    i: usize,
    surface_id: u64,
    title: Option<String>,
    app_id: Option<String>,
    hints: WindowManagementHints,
    scene_geometry: Option<WindowSceneGeometry>,
    attached: bool,
    env: &LifecycleEnv,
    res: RuleResolution,
)
    requires
        window_slot(old(run)@.windows, surface_id) == Some(i as int),
        i < old(run).windows@.len(),
    ensures
        final(run)@ == match upsert_geometry(surface_id, scene_geometry, old(run)@.known) {
            None => upsert_metadata_step(old(run)@, i as int, title, app_id, hints, res),
            Some(geometry) => upsert_existing_step(
                old(run)@,
                i as int,
                surface_id,
                title,
                app_id,
                hints,
                geometry,
                attached,
                *env,
                res,
            ),
        },
{
    let ghost before = run.windows@;
    let entry = take_window(run, i);
    let WindowEntity { entity, window } = entry;
    let mut existing = Some(window);
    let outcome = upsert_window(
        surface_id,
        title,
        app_id,
        hints,
        scene_geometry,
        attached,
        res.policy,
        res.background_output,
        env.active_workspace,
        &mut existing,
        &mut run.known_surfaces,
    );
    let window = match existing {
        Some(window) => window,
        None => return,
    };
    put_window(run, i, WindowEntity { entity, window }, Ghost(before));
    match outcome {
        UpsertOutcome::MetadataUpdated { background } => {
            push_effect(run, LifecycleEffect::Background { entity, change: background });
        },
        UpsertOutcome::Updated { background, moved, parent } => {
            push_effect(run, LifecycleEffect::Background { entity, change: background });
            match moved {
                Some((x, y)) => push_effect(run, LifecycleEffect::Moved { surface_id, x, y }),
                None => {},
            }
            match parent {
                Some(workspace) => push_effect(run, LifecycleEffect::Parent { entity, workspace }),
                None => {},
            }
        },
        _ => {},
    }
}

fn upsert_request(
    run: &mut WindowLifecycleRun,
    request: WindowEventRequest,
    env: &LifecycleEnv,
    resolution: Option<RuleResolution>,
)
    ensures
        final(run)@ == upsert_request_step(old(run)@, request, *env, resolution),
{
    let (title, app_id, hints, scene_geometry, attached) = match &request.action {
        WindowEvent::Upsert { title, app_id, hints, scene_geometry, attached } => (
            crate::lifecycle::clone_optional_string(title),
            crate::lifecycle::clone_optional_string(app_id),
            *hints,
            *scene_geometry,
            *attached,
        ),
        _ => return,
    };
    let surface_id = request.surface_id;
    let slot = find_window(&run.windows, surface_id);
    let has_geometry = scene_geometry.is_some() || !run.known_surfaces.contains(&surface_id);
    let res = match resolution {
        Some(res) => res,
        None => {
            run.deferred.push(request);
            return;
        },
    };
    match slot {
        Some(i) => upsert_existing(run, i, surface_id, title, app_id, hints, scene_geometry, attached, env, res),
        None => {
            if has_geometry {
                let geometry = match scene_geometry {
                    Some(geometry) => geometry,
                    None => WindowSceneGeometry { x: 0, y: 0, width: 960, height: 720 },
                };
                upsert_new(run, surface_id, title, app_id, hints, geometry, attached, env, res);
            } else {
                run.deferred.push(request);
            }
        },
    }
}

/// Subject whose window rules a request needs; see [`request_subject`].
pub fn window_rule_subject(run: &WindowLifecycleRun, request: &WindowEventRequest) -> (subject: Option<
    WindowRuleSubject,
>)
    ensures
        match subject {
            Some(s) => request_subject(run@, *request) == Some(s@),
            None => request_subject(run@, *request) is None,
        },
{
    match &request.action {
        WindowEvent::Upsert { title, app_id, hints, scene_geometry, .. } => {
            let slot = find_window(&run.windows, request.surface_id);
            let existing = match slot {
                Some(i) => Some(&run.windows[i].window),
                None => None,
            };
            match upsert_rule_subject(
                request.surface_id,
                title,
                app_id,
                *scene_geometry,
                &run.known_surfaces,
                existing,
            ) {
                Some((app, name)) => Some(WindowRuleSubject { app_id: app, title: name, hints: *hints }),
                None => None,
            }
        },
        _ => None,
    }
}

/// Applies one request of the tick with the resolution of its subject; see [`lifecycle_step`].
pub fn window_lifecycle_step(
    run: &mut WindowLifecycleRun,
    request: WindowEventRequest,
    env: &LifecycleEnv,
    resolution: Option<RuleResolution>,
)
    ensures
        final(run)@ == lifecycle_step(old(run)@, request, *env, resolution),
{
    let kind: u8 = match &request.action {
        WindowEvent::Upsert { .. } => 0,
        WindowEvent::Committed { .. } => 1,
        WindowEvent::ManagerRequest(_) => 2,
        WindowEvent::Closed => 3,
    };
    if kind == 0 {
        upsert_request(run, request, env, resolution);
    } else if kind == 1 {
        commit_window(run, request, env);
    } else if kind == 2 {
        request_of_window(run, request);
    } else {
        close_window(run, request.surface_id, env);
    }
}

/// Runs one tick of the window lifecycle: the requests deferred by the last tick and then the
/// incoming ones are applied in order (see [`lifecycle_run`]), each upsert's rules resolved by
/// `resolve`. Requests whose window does not exist yet come back in `deferred`.
pub fn window_lifecycle_system<F: Fn(&WindowRuleSubject) -> RuleResolution>(
    windows: Vec<WindowEntity>,
    focus: Option<u64>,
    grab: Option<GrabStart>,
    deferred: Vec<WindowEventRequest>,
    incoming: Vec<WindowEventRequest>,
    env: &LifecycleEnv,
    resolve: F,
) -> (run: WindowLifecycleRun)
    requires
        resolves_consistently(resolve),
    ensures
        run@ == lifecycle_run(tick_start(windows@, focus, grab), deferred@ + incoming@, *env, resolve),
{
    let mut known: BTreeSet<u64> = BTreeSet::new();
    let mut i: usize = 0;
    while i < windows.len()
        invariant
            i <= windows@.len(),
            known@ == surfaces_of(entity_views(windows@).take(i as int)),
        decreases windows.len() - i,
    {
        proof {
            assert(entity_views(windows@).take(i + 1).drop_last() =~= entity_views(windows@).take(
                i as int,
            ));
        }
        known.insert(windows[i].window.surface_id);
        i += 1;
    }
    assert(entity_views(windows@).take(i as int) =~= entity_views(windows@));
    let ghost start = tick_start(windows@, focus, grab);
    let mut run = WindowLifecycleRun {
        windows,
        known_surfaces: known,
        focus,
        grab,
        effects: Vec::new(),
        deferred: Vec::new(),
    };
    assert(run@.effects =~= Seq::<LifecycleEffectView>::empty());
    assert(run@ == start);
    let mut requests = deferred;
    let mut incoming = incoming;
    let ghost all = requests@ + incoming@;
    requests.append(&mut incoming);
    while requests.len() > 0
        invariant
            resolves_consistently(resolve),
            lifecycle_run(run@, requests@, *env, resolve) == lifecycle_run(start, all, *env, resolve),
        decreases requests.len(),
    {
        let ghost pending = requests@;
        let request = requests.remove(0);
        assert(pending.drop_first() =~= requests@);
        let subject = window_rule_subject(&run, &request);
        let resolution = match subject {
            Some(subject) => {
                let resolution = resolve(&subject);
                proof {
                    lemma_resolution(resolve, subject, resolution);
                }
                Some(resolution)
            },
            None => None,
        };
        window_lifecycle_step(&mut run, request, env, resolution);
    }
    run
}

fn close_window(run: &mut WindowLifecycleRun, surface_id: u64, env: &LifecycleEnv)
    ensures
        final(run)@ == closed_step(old(run)@, surface_id, *env),
{
    run.known_surfaces.remove(&surface_id);
    let slot = find_window(&run.windows, surface_id);
    let i = match slot {
        Some(i) => i,
        None => return,
    };
    let entity = run.windows[i].entity;
    assert(run.windows@ == old(run).windows@);
    assert(entity == old(run)@.windows[i as int].entity);
    let destroy = destroy_window(surface_id, Some(entity), Some(entity), &env.popups);
    let destroy = match destroy {
        Some(destroy) => destroy,
        None => return,
    };
    let ghost start = effect_views(run.effects@);
    let ghost dismissed = destroy.dismissed_popups@;
    let mut k: usize = 0;
    while k < destroy.dismissed_popups.len()
        invariant
            k <= dismissed.len(),
            dismissed == destroy.dismissed_popups@,
            run.windows@ == old(run).windows@,
            run.known_surfaces@ == old(run).known_surfaces@.remove(surface_id),
            run.focus == old(run).focus,
            run.grab == old(run).grab,
            run.deferred@ == old(run).deferred@,
            effect_views(run.effects@) == start + dismissals(dismissed.take(k as int)),
        decreases dismissed.len() - k,
    {
        let popup = destroy.dismissed_popups[k];
        let ghost before = run.effects@;
        run.effects.push(LifecycleEffect::DismissPopup { surface_id: popup });
        proof {
            assert(effect_views(run.effects@) =~= effect_views(before).push(
                LifecycleEffectView::DismissPopup { surface_id: popup },
            ));
            assert(dismissed.take(k + 1) =~= dismissed.take(k as int).push(popup));
            assert(effect_views(run.effects@) =~= start + dismissals(dismissed.take(k + 1)));
        }
        k += 1;
    }
    assert(dismissed.take(k as int) =~= dismissed);
    let ghost before = run.effects@;
    run.effects.push(LifecycleEffect::Despawn { entity, surface_id });
    assert(effect_views(run.effects@) =~= effect_views(before).push(
        LifecycleEffectView::Despawn { entity, surface_id },
    ));
    assert(effect_views(run.effects@) =~= (start + dismissals(dismissed)).push(LifecycleEffectView::Despawn { entity, surface_id }));
}

} // verus!

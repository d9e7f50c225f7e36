//! Staged window controls (move, resize, split, focus, close, background) applied to the window
//! set.
//!
//! Geometry controls update the window's placement and pin a floating policy; close requests
//! become low-level close requests; background controls switch the output-background role.

#[allow(unused_imports)]
use vstd::prelude::*;
use crate::cli::SplitAxis;
use crate::geometry::{output_for_workspace, project_scene_geometry, projected, resolve_output_state_for_workspace};
use crate::model::{
    OutputRecord, OutputViewport, SurfaceGeometry, WindowLayout, WindowMode, WindowSceneGeometry,
};
use crate::search::{first_index, first_index_from, lemma_first_index_bounds};
use crate::window_policy::{
    background_sync, lock_window_policy, sync_window_background_role, BackgroundRoleChange,
    OutputBackgroundWindow, WindowBackgroundState, WindowPolicy, WindowPolicyState,
};

verus! {

/// Workspace ids that stand for "no workspace" in the stacking and tiling state.
#[derive(Clone, Copy, Debug, PartialEq, Eq, Structural)]
pub struct UnassignedWorkspaceIds {
    pub stack: u32,
    pub tiling: u32,
}

/// Requested window position in scene coordinates.
#[derive(Clone, Copy, Debug, PartialEq, Eq, Structural)]
pub struct WindowPosition {
    pub x: isize,
    pub y: isize,
}

/// Requested window size.
#[derive(Clone, Copy, Debug, PartialEq, Eq, Structural)]
pub struct WindowSize {
    pub width: u32,
    pub height: u32,
}

/// Background part of a window control.
#[derive(Clone, Copy, Debug, PartialEq, Eq, Structural)]
pub enum WindowBackgroundControl {
    Attach { output: u64 },
    Clear,
}

/// One staged window control.
#[derive(Clone, Copy, Debug, PartialEq, Eq, Structural)]
pub struct WindowControl {
    pub surface_id: u64,
    pub position: Option<WindowPosition>,
    pub size: Option<WindowSize>,
    pub split_axis: Option<SplitAxis>,
    pub focus: bool,
    pub close: bool,
    pub background: Option<WindowBackgroundControl>,
}

/// Floating position of a window: one the user or client chose, or one the floating layout chose.
#[derive(Clone, Copy, Debug, PartialEq, Eq, Structural)]
pub enum FloatingPosition {
    Explicit(WindowPosition),
    Auto(WindowPosition),
}

/// Floating placement of a window.
#[derive(Clone, Copy, Debug, PartialEq, Eq, Structural)]
pub struct WindowPlacement {
    pub floating_position: Option<FloatingPosition>,
    pub floating_size: Option<WindowSize>,
}

/// Placement with an explicit position.
pub open spec fn explicitly_at(placement: WindowPlacement, position: WindowPosition) -> WindowPlacement {
    WindowPlacement { floating_position: Some(FloatingPosition::Explicit(position)), ..placement }
}

impl WindowPlacement {
    /// Position in force, chosen or automatic.
    pub open spec fn resolved_position(self) -> Option<WindowPosition> {
        match self.floating_position {
            Some(FloatingPosition::Explicit(position)) => Some(position),
            Some(FloatingPosition::Auto(position)) => Some(position),
            None => None,
        }
    }

    /// Position in force, chosen or automatic.
    pub fn resolved_floating_position(&self) -> (position: Option<WindowPosition>)
        ensures
            position == self.resolved_position(),
    {
        match self.floating_position {
            Some(FloatingPosition::Explicit(position)) => Some(position),
            Some(FloatingPosition::Auto(position)) => Some(position),
            None => None,
        }
    }

    /// Whether the position was chosen by the user or client.
    pub open spec fn spec_has_explicit_placement(self) -> bool {
        self.floating_position matches Some(FloatingPosition::Explicit(_))
    }

    /// Whether the position was chosen by the user or client.
    pub fn has_explicit_placement(&self) -> (result: bool)
        ensures
            result == self.spec_has_explicit_placement(),
    {
        matches!(self.floating_position, Some(FloatingPosition::Explicit(_)))
    }

    /// Records a position chosen by the user or client.
    pub fn set_explicit_position(&mut self, position: WindowPosition)
        ensures
            *final(self) == explicitly_at(*old(self), position),
    {
        self.floating_position = Some(FloatingPosition::Explicit(position));
    }

    /// Records a position chosen by the floating layout.
    pub fn set_auto_position(&mut self, position: WindowPosition)
        ensures
            final(self).floating_position == Some(FloatingPosition::Auto(position)),
            final(self).floating_size == old(self).floating_size,
    {
        self.floating_position = Some(FloatingPosition::Auto(position));
    }
}

/// A window as the control step sees it.
pub struct ControlledWindow {
    pub surface_id: u64,
    /// Id of the workspace the window belongs to, if any.
    pub workspace: Option<u32>,
    pub state: WindowBackgroundState,
    /// Output-background component as it was when the step began.
    pub background: Option<OutputBackgroundWindow>,
    pub geometry: SurfaceGeometry,
    pub placement: WindowPlacement,
    pub policy: WindowPolicyState,
    pub override_redirect: bool,
}

/// A change outside the window decided by a control, applied in order.
#[derive(Clone, Debug, PartialEq, Eq)]
pub enum WindowControlEffect {
    /// Ask the client to close the surface.
    Close { surface_id: u64 },
    /// Raise the surface to the top of its workspace stack.
    Raise { workspace: u32, surface_id: u64 },
    /// Make sure the surface is tiled on the workspace and set its split axis.
    Tile { workspace: u32, surface_id: u64, axis: SplitAxis },
    /// The window was moved to a position.
    Moved { surface_id: u64, x: i64, y: i64 },
    /// Change of the surface's output-background component.
    Background { surface_id: u64, change: BackgroundRoleChange },
}

/// Stacking workspace of a window: its workspace, or the unassigned stack id.
pub open spec fn stack_workspace(window: ControlledWindow, ids: UnassignedWorkspaceIds) -> u32 {
    match window.workspace {
        Some(id) => id,
        None => ids.stack,
    }
}

/// Tiling workspace for a stacking workspace id.
pub open spec fn tiling_workspace(workspace: u32, ids: UnassignedWorkspaceIds) -> u32 {
    if workspace == ids.stack {
        ids.tiling
    } else {
        workspace
    }
}

/// Output-local geometry after a scene change: projected through the viewport of the window's
/// output, or unchanged without one.
pub open spec fn reprojected(
    geometry: SurfaceGeometry,
    scene: WindowSceneGeometry,
    viewport: Option<OutputViewport>,
) -> SurfaceGeometry {
    match viewport {
        Some(viewport) => projected(scene, viewport),
        None => geometry,
    }
}

/// Policy pinned by a control that forces a layout.
pub open spec fn pinned(layout: WindowLayout, mode: WindowMode) -> WindowPolicyState {
    WindowPolicyState { applied: WindowPolicy { layout, mode }, locked: true }
}

/// Window after a move: explicit position and scene origin set, floating and normal with the
/// policy pinned, geometry re-projected.
#[verifier::opaque]
pub open spec fn after_position(
    window: ControlledWindow,
    position: WindowPosition,
    viewport: Option<OutputViewport>,
) -> ControlledWindow {
    let scene = WindowSceneGeometry { x: position.x, y: position.y, ..window.state.scene_geometry };
    ControlledWindow {
        state: WindowBackgroundState {
            scene_geometry: scene,
            layout: WindowLayout::Floating,
            mode: WindowMode::Normal,
            ..window.state
        },
        placement: explicitly_at(window.placement, position),
        policy: pinned(WindowLayout::Floating, WindowMode::Normal),
        geometry: reprojected(window.geometry, scene, viewport),
        ..window
    }
}

/// A size clamped to at least 64 pixels each way.
pub open spec fn clamped_size(size: WindowSize) -> WindowSize {
    WindowSize {
        width: if size.width < 64 { 64 } else { size.width },
        height: if size.height < 64 { 64 } else { size.height },
    }
}

/// Window after a resize: floating size and scene size set (at least 64x64), floating and
/// normal with the policy pinned, the current origin made explicit unless the control also
/// moved it, geometry re-projected.
#[verifier::opaque]
pub open spec fn after_size(
    window: ControlledWindow,
    size: WindowSize,
    moved: bool,
    viewport: Option<OutputViewport>,
) -> ControlledWindow {
    let clamped = clamped_size(size);
    let scene = WindowSceneGeometry {
        width: clamped.width,
        height: clamped.height,
        ..window.state.scene_geometry
    };
    ControlledWindow {
        state: WindowBackgroundState {
            scene_geometry: scene,
            layout: WindowLayout::Floating,
            mode: WindowMode::Normal,
            ..window.state
        },
        placement: WindowPlacement {
            floating_position: if moved {
                window.placement.floating_position
            } else {
                Some(FloatingPosition::Explicit(WindowPosition { x: scene.x, y: scene.y }))
            },
            floating_size: Some(clamped),
        },
        policy: pinned(WindowLayout::Floating, WindowMode::Normal),
        geometry: reprojected(window.geometry, scene, viewport),
        ..window
    }
}

/// Window after a split: tiled and normal with the policy pinned.
#[verifier::opaque]
pub open spec fn after_split(window: ControlledWindow) -> ControlledWindow {
    ControlledWindow {
        state: WindowBackgroundState {
            layout: WindowLayout::Tiled,
            mode: WindowMode::Normal,
            ..window.state
        },
        policy: pinned(WindowLayout::Tiled, WindowMode::Normal),
        ..window
    }
}

/// Result of one control on one window: the window, the keyboard focus, and the effects.
pub struct ControlStep {
    pub window: ControlledWindow,
    pub focus: Option<u64>,
    pub effects: Seq<WindowControlEffect>,
}

/// Background part of a control: sync the background role (a new background loses keyboard
/// focus).
#[verifier::opaque]
pub open spec fn background_part(
    window: ControlledWindow,
    focus: Option<u64>,
    effects: Seq<WindowControlEffect>,
    control: Option<WindowBackgroundControl>,
) -> ControlStep {
    match control {
        Some(request) => {
            let desired = match request {
                WindowBackgroundControl::Attach { output } => Some(output),
                WindowBackgroundControl::Clear => None,
            };
            let (change, state) = background_sync(desired, window.state, window.background);
            ControlStep {
                window: ControlledWindow { state, ..window },
                focus: if desired is Some && focus == Some(window.surface_id) {
                    None
                } else {
                    focus
                },
                effects: effects.push(
                    WindowControlEffect::Background { surface_id: window.surface_id, change },
                ),
            }
        },
        None => ControlStep { window, focus, effects },
    }
}

/// What one control does to its window. A background window only honours close and background
/// requests; another window applies, in order, the move, the resize, the split, the focus (unless
/// hidden or override-redirect), the close and the background request.
pub open spec fn window_control_step(
    window: ControlledWindow,
    control: WindowControl,
    viewport: Option<OutputViewport>,
    ids: UnassignedWorkspaceIds,
    focus: Option<u64>,
) -> ControlStep {
    let surface = window.surface_id;
    let workspace = stack_workspace(window, ids);
    let close = if control.close {
        seq![WindowControlEffect::Close { surface_id: surface }]
    } else {
        Seq::<WindowControlEffect>::empty()
    };
    if window.background is Some {
        background_part(window, focus, close, control.background)
    } else {
        managed_control_step(window, control, viewport, ids, focus)
    }
}

/// What a control does to a window that is not an output background; see
/// [`window_control_step`].
pub open spec fn managed_control_step(
    window: ControlledWindow,
    control: WindowControl,
    viewport: Option<OutputViewport>,
    ids: UnassignedWorkspaceIds,
    focus: Option<u64>,
) -> ControlStep {
    let surface = window.surface_id;
    let workspace = stack_workspace(window, ids);
    let close = if control.close {
        seq![WindowControlEffect::Close { surface_id: surface }]
    } else {
        Seq::<WindowControlEffect>::empty()
    };
    {
        let raise = WindowControlEffect::Raise { workspace, surface_id: surface };
        let moved = match control.position {
            Some(position) => after_position(window, position, viewport),
            None => window,
        };
        let moved_effects = match control.position {
            Some(position) => seq![
                raise,
                WindowControlEffect::Moved {
                    surface_id: surface,
                    x: position.x as i64,
                    y: position.y as i64,
                },
            ],
            None => Seq::<WindowControlEffect>::empty(),
        };
        let sized = match control.size {
            Some(size) => after_size(moved, size, control.position is Some, viewport),
            None => moved,
        };
        let sized_effects = if control.size is Some {
            moved_effects.push(raise)
        } else {
            moved_effects
        };
        let split = if control.split_axis is Some {
            after_split(sized)
        } else {
            sized
        };
        let split_effects = match control.split_axis {
            Some(axis) => sized_effects.push(
                WindowControlEffect::Tile {
                    workspace: tiling_workspace(workspace, ids),
                    surface_id: surface,
                    axis,
                },
            ),
            None => sized_effects,
        };
        let focuses = control.focus && split.state.mode != WindowMode::Hidden
            && !split.override_redirect;
        let focus_after = if focuses {
            Some(surface)
        } else {
            focus
        };
        let focus_effects = if focuses {
            split_effects.push(raise)
        } else {
            split_effects
        };
        background_part(split, focus_after, focus_effects + close, control.background)
    }
}

fn apply_background_part(
    window: &mut ControlledWindow,
    focus: &mut Option<u64>,
    effects: &mut Vec<WindowControlEffect>,
    control: Option<WindowBackgroundControl>,
)
    ensures
        ({
            let step = background_part(*old(window), *old(focus), old(effects)@, control);
            &&& *final(window) == step.window
            &&& *final(focus) == step.focus
            &&& final(effects)@ == step.effects
        }),
{
    reveal(background_part);
    if let Some(request) = control {
        let desired = match request {
            WindowBackgroundControl::Attach { output } => Some(output),
            WindowBackgroundControl::Clear => None,
        };
        let current = match &window.background {
            Some(background) => Some(
                OutputBackgroundWindow {
                    output: background.output,
                    restore: crate::window_policy::clone_restore_state(&background.restore),
                },
            ),
            None => None,
        };
        let change = sync_window_background_role(desired, &mut window.state, current);
        if desired.is_some() && *focus == Some(window.surface_id) {
            *focus = None;
        }
        effects.push(WindowControlEffect::Background { surface_id: window.surface_id, change });
    }
}

fn reproject(
    geometry: &mut SurfaceGeometry,
    scene: &WindowSceneGeometry,
    viewport: Option<OutputViewport>,
)
    ensures
        *final(geometry) == reprojected(*old(geometry), *scene, viewport),
{
    if let Some(viewport) = viewport {
        *geometry = project_scene_geometry(scene, &viewport);
    }
}

fn apply_position_part(
    window: &mut ControlledWindow,
    position: Option<WindowPosition>,
    viewport: Option<OutputViewport>,
    workspace: u32,
    effects: &mut Vec<WindowControlEffect>,
)
    ensures
        final(window).surface_id == old(window).surface_id,
        final(window).override_redirect == old(window).override_redirect,
        final(window).background == old(window).background,
        *final(window) == match position {
            Some(position) => after_position(*old(window), position, viewport),
            None => *old(window),
        },
        final(effects)@ == old(effects)@ + match position {
            Some(position) => seq![
                WindowControlEffect::Raise { workspace, surface_id: old(window).surface_id },
                WindowControlEffect::Moved {
                    surface_id: old(window).surface_id,
                    x: position.x as i64,
                    y: position.y as i64,
                },
            ],
            None => Seq::<WindowControlEffect>::empty(),
        },
{
    reveal(after_position);
    let surface = window.surface_id;
    if let Some(position) = position {
        window.placement.set_explicit_position(position);
        window.state.scene_geometry.x = position.x;
        window.state.scene_geometry.y = position.y;
        window.state.layout = WindowLayout::Floating;
        window.state.mode = WindowMode::Normal;
        lock_window_policy(window.state.layout, window.state.mode, &mut window.policy);
        effects.push(WindowControlEffect::Raise { workspace, surface_id: surface });
        reproject(&mut window.geometry, &window.state.scene_geometry, viewport);
        effects.push(
            WindowControlEffect::Moved { surface_id: surface, x: position.x as i64, y: position.y as i64 },
        );
        assert(window.policy == pinned(WindowLayout::Floating, WindowMode::Normal));
    } else {
        assert(effects@ =~= old(effects)@ + Seq::<WindowControlEffect>::empty());
    }
}

fn apply_size_part(
    window: &mut ControlledWindow,
    size: Option<WindowSize>,
    moved: bool,
    viewport: Option<OutputViewport>,
    workspace: u32,
    effects: &mut Vec<WindowControlEffect>,
)
    ensures
        final(window).surface_id == old(window).surface_id,
        final(window).override_redirect == old(window).override_redirect,
        final(window).background == old(window).background,
        *final(window) == match size {
            Some(size) => after_size(*old(window), size, moved, viewport),
            None => *old(window),
        },
        final(effects)@ == if size is Some {
            old(effects)@.push(
                WindowControlEffect::Raise { workspace, surface_id: old(window).surface_id },
            )
        } else {
            old(effects)@
        },
{
    reveal(after_size);
    let surface = window.surface_id;
    if let Some(size) = size {
        let width: u32 = if size.width < 64 { 64 } else { size.width };
        let height: u32 = if size.height < 64 { 64 } else { size.height };
        window.placement.floating_size = Some(WindowSize { width, height });
        window.state.scene_geometry.width = width;
        window.state.scene_geometry.height = height;
        window.state.layout = WindowLayout::Floating;
        window.state.mode = WindowMode::Normal;
        lock_window_policy(window.state.layout, window.state.mode, &mut window.policy);
        effects.push(WindowControlEffect::Raise { workspace, surface_id: surface });
        if !moved {
            window.placement.set_explicit_position(
                WindowPosition { x: window.state.scene_geometry.x, y: window.state.scene_geometry.y },
            );
        }
        reproject(&mut window.geometry, &window.state.scene_geometry, viewport);
        assert(window.policy == pinned(WindowLayout::Floating, WindowMode::Normal));
    }
}

fn apply_split_part(
    window: &mut ControlledWindow,
    split_axis: Option<SplitAxis>,
    workspace: u32,
    ids: UnassignedWorkspaceIds,
    effects: &mut Vec<WindowControlEffect>,
)
    ensures
        final(window).surface_id == old(window).surface_id,
        final(window).override_redirect == old(window).override_redirect,
        final(window).background == old(window).background,
        *final(window) == if split_axis is Some {
            after_split(*old(window))
        } else {
            *old(window)
        },
        final(effects)@ == match split_axis {
            Some(axis) => old(effects)@.push(
                WindowControlEffect::Tile {
                    workspace: tiling_workspace(workspace, ids),
                    surface_id: old(window).surface_id,
                    axis,
                },
            ),
            None => old(effects)@,
        },
{
    reveal(after_split);
    if let Some(axis) = split_axis {
        window.state.layout = WindowLayout::Tiled;
        window.state.mode = WindowMode::Normal;
        lock_window_policy(window.state.layout, window.state.mode, &mut window.policy);
        let tiling = if workspace == ids.stack {
            ids.tiling
        } else {
            workspace
        };
        effects.push(WindowControlEffect::Tile { workspace: tiling, surface_id: window.surface_id, axis });
        assert(window.policy == pinned(WindowLayout::Tiled, WindowMode::Normal));
    }
}

/// Applies one control to its window; see [`window_control_step`].
pub fn apply_window_control(
    window: &mut ControlledWindow,
    control: &WindowControl,
    viewport: Option<OutputViewport>,
    ids: UnassignedWorkspaceIds,
    focus: &mut Option<u64>,
    effects: &mut Vec<WindowControlEffect>,
)
    ensures
        ({
            let step = window_control_step(*old(window), *control, viewport, ids, *old(focus));
            &&& *final(window) == step.window
            &&& *final(focus) == step.focus
            &&& final(effects)@ == old(effects)@ + step.effects
        }),
{
    if window.background.is_some() {
        let ghost start = effects@;
        let surface = window.surface_id;
        if control.close {
            effects.push(WindowControlEffect::Close { surface_id: surface });
        }
        apply_background_part(window, focus, effects, control.background);
        proof {
            reveal(background_part);
            let close = if control.close {
                seq![WindowControlEffect::Close { surface_id: surface }]
            } else {
                Seq::<WindowControlEffect>::empty()
            };
            let step = background_part(*old(window), *old(focus), start + close, control.background);
            assert(step.effects =~= start + background_part(*old(window), *old(focus), close, control.background).effects);
        }
    } else {
        apply_managed_control(window, control, viewport, ids, focus, effects);
    }
}

#[verifier::rlimit(40)]
fn apply_managed_control(
    window: &mut ControlledWindow,
    control: &WindowControl,
    viewport: Option<OutputViewport>,
    ids: UnassignedWorkspaceIds,
    focus: &mut Option<u64>,
    effects: &mut Vec<WindowControlEffect>,
)
    ensures
        ({
            let step = managed_control_step(*old(window), *control, viewport, ids, *old(focus));
            &&& *final(window) == step.window
            &&& *final(focus) == step.focus
            &&& final(effects)@ == old(effects)@ + step.effects
        }),
{
    let ghost start = effects@;
    let surface = window.surface_id;
    let workspace = match window.workspace {
        Some(id) => id,
        None => ids.stack,
    };
    let ghost w0 = *window;
    let ghost f0 = *focus;
    let ghost raise = WindowControlEffect::Raise { workspace, surface_id: surface };
    let ghost moved_effects = match control.position {
        Some(position) => seq![
            raise,
            WindowControlEffect::Moved {
                surface_id: surface,
                x: position.x as i64,
                y: position.y as i64,
            },
        ],
        None => Seq::<WindowControlEffect>::empty(),
    };
    apply_position_part(window, control.position, viewport, workspace, effects);
    let ghost sized_effects = if control.size is Some {
        moved_effects.push(raise)
    } else {
        moved_effects
    };
    apply_size_part(window, control.size, control.position.is_some(), viewport, workspace, effects);
    assert(effects@ =~= start + sized_effects);
    let ghost split_effects = match control.split_axis {
        Some(axis) => sized_effects.push(
            WindowControlEffect::Tile {
                workspace: tiling_workspace(workspace, ids),
                surface_id: surface,
                axis,
            },
        ),
        None => sized_effects,
    };
    apply_split_part(window, control.split_axis, workspace, ids, effects);
    assert(effects@ =~= start + split_effects);
    let ghost w3 = *window;
    let focuses = control.focus && window.state.mode != WindowMode::Hidden
        && !window.override_redirect;
    if focuses {
        *focus = Some(surface);
        effects.push(WindowControlEffect::Raise { workspace, surface_id: surface });
    }
    let ghost focus_effects = if focuses {
        split_effects.push(raise)
    } else {
        split_effects
    };
    assert(effects@ =~= start + focus_effects);
    if control.close {
        effects.push(WindowControlEffect::Close { surface_id: surface });
    }
    let ghost close = if control.close {
        seq![WindowControlEffect::Close { surface_id: surface }]
    } else {
        Seq::<WindowControlEffect>::empty()
    };
    assert(effects@ =~= start + (focus_effects + close));
    let ghost f3 = *focus;
    apply_background_part(window, focus, effects, control.background);
    proof {
        reveal(background_part);
        let tail = background_part(w3, f3, focus_effects + close, control.background);
        let whole = background_part(w3, f3, start + (focus_effects + close), control.background);
        assert(whole.effects =~= start + tail.effects);
        assert(tail == managed_control_step(w0, *control, viewport, ids, f0));
    }
}

/// Window with a given surface id.
pub open spec fn has_surface(surface_id: u64) -> spec_fn(ControlledWindow) -> bool {
    |window: ControlledWindow| window.surface_id == surface_id
}

/// Viewport of the output a workspace is shown on (the output showing it, else the primary,
/// else the first output).
pub open spec fn workspace_viewport(
    outputs: Seq<OutputRecord>,
    workspace: u32,
    primary_output: Option<u64>,
) -> Option<OutputViewport> {
    match output_for_workspace(outputs, Some(workspace), primary_output) {
        Some(o) => Some(outputs[o].viewport),
        None => None,
    }
}

/// State of a run of controls: the windows, the keyboard focus, the effects so far, and the
/// controls deferred because their surface has no window yet.
pub struct ControlRun {
    pub windows: Seq<ControlledWindow>,
    pub focus: Option<u64>,
    pub effects: Seq<WindowControlEffect>,
    pub deferred: Seq<WindowControl>,
}

/// One control of a run: deferred when no window has its surface, else applied to the first
/// window with it, seen through the viewport of its workspace's output.
pub open spec fn control_run_step(
    run: ControlRun,
    control: WindowControl,
    outputs: Seq<OutputRecord>,
    primary_output: Option<u64>,
    ids: UnassignedWorkspaceIds,
) -> ControlRun {
    match first_index(run.windows, has_surface(control.surface_id)) {
        None => ControlRun { deferred: run.deferred.push(control), ..run },
        Some(i) => {
            let window = run.windows[i];
            let step = window_control_step(
                window,
                control,
                workspace_viewport(outputs, stack_workspace(window, ids), primary_output),
                ids,
                run.focus,
            );
            ControlRun {
                windows: run.windows.update(i, step.window),
                focus: step.focus,
                effects: run.effects + step.effects,
                deferred: run.deferred,
            }
        },
    }
}

/// Outcome of a run of controls, in order.
pub open spec fn control_run(
    run: ControlRun,
    controls: Seq<WindowControl>,
    outputs: Seq<OutputRecord>,
    primary_output: Option<u64>,
    ids: UnassignedWorkspaceIds,
) -> ControlRun
    decreases controls.len(),
{
    if controls.len() == 0 {
        run
    } else {
        control_run_step(
            control_run(run, controls.drop_last(), outputs, primary_output, ids),
            controls.last(),
            outputs,
            primary_output,
            ids,
        )
    }
}

fn find_window(windows: &Vec<ControlledWindow>, surface_id: u64) -> (index: Option<usize>)
    ensures
        match index {
            Some(i) => first_index(windows@, has_surface(surface_id)) == Some(i as int),
            None => first_index(windows@, has_surface(surface_id)) is None,
        },
{
    let mut i: usize = 0;
    while i < windows.len()
        invariant
            i <= windows@.len(),
            first_index(windows@, has_surface(surface_id)) == first_index_from(
                windows@,
                has_surface(surface_id),
                i as int,
            ),
        decreases windows.len() - i,
    {
        if windows[i].surface_id == surface_id {
            return Some(i);
        }
        i += 1;
    }
    None
}

/// Applies staged window controls in order to the window set; see [`control_run`]. Returns the
/// effects to perform, in order, and the controls to keep for later because their surface has
/// no window yet.
pub fn window_control_request_system(
    windows: &mut Vec<ControlledWindow>,
    controls: &Vec<WindowControl>,
    outputs: &Vec<OutputRecord>,
    primary_output: Option<u64>,
    ids: UnassignedWorkspaceIds,
    focus: &mut Option<u64>,
) -> (result: (Vec<WindowControlEffect>, Vec<WindowControl>))
    ensures
        ({
            let run = control_run(
                ControlRun { windows: old(windows)@, focus: *old(focus), effects: seq![], deferred: seq![] },
                controls@,
                outputs@,
                primary_output,
                ids,
            );
            &&& final(windows)@ == run.windows
            &&& *final(focus) == run.focus
            &&& result.0@ == run.effects
            &&& result.1@ == run.deferred
        }),
{
    let ghost start = ControlRun {
        windows: windows@,
        focus: *focus,
        effects: seq![],
        deferred: seq![],
    };
    let mut effects: Vec<WindowControlEffect> = Vec::new();
    let mut deferred: Vec<WindowControl> = Vec::new();
    let mut i: usize = 0;
    while i < controls.len()
        invariant
            i <= controls@.len(),
            ({
                let run = control_run(start, controls@.take(i as int), outputs@, primary_output, ids);
                &&& windows@ == run.windows
                &&& *focus == run.focus
                &&& effects@ == run.effects
                &&& deferred@ == run.deferred
            }),
        decreases controls.len() - i,
    {
        proof {
            assert(controls@.take(i + 1).drop_last() =~= controls@.take(i as int));
        }
        let control = controls[i];
        proof {
            lemma_first_index_bounds(windows@, has_surface(control.surface_id), 0);
        }
        match find_window(windows, control.surface_id) {
            None => {
                deferred.push(control);
            },
            Some(k) => {
                let workspace = match windows[k].workspace {
                    Some(id) => id,
                    None => ids.stack,
                };
                let viewport = match resolve_output_state_for_workspace(
                    outputs,
                    Some(workspace),
                    primary_output,
                ) {
                    Some(o) => Some(outputs[o].viewport),
                    None => None,
                };
                let ghost before = windows@;
                let mut window = windows.remove(k);
                apply_window_control(&mut window, &control, viewport, ids, focus, &mut effects);
                windows.insert(k, window);
                assert(windows@ =~= before.update(k as int, window));
            },
        }
        i += 1;
    }
    assert(controls@.take(i as int) =~= controls@);
    (effects, deferred)
}

/// A move or resize that is not combined with a split leaves a managed window floating and
/// normal, with that policy pinned against later rule refreshes.
pub proof fn law_geometry_controls_pin_floating(
    window: ControlledWindow,
    control: WindowControl,
    viewport: Option<OutputViewport>,
    ids: UnassignedWorkspaceIds,
    focus: Option<u64>,
)
    requires
        window.background is None,
        control.background is None,
        control.split_axis is None,
        control.position is Some || control.size is Some,
    ensures
        ({
            let after = window_control_step(window, control, viewport, ids, focus).window;
            &&& after.state.layout == WindowLayout::Floating
            &&& after.state.mode == WindowMode::Normal
            &&& after.policy == pinned(WindowLayout::Floating, WindowMode::Normal)
        }),
{
    reveal(after_position);
    reveal(after_size);
    reveal(background_part);
}

} // verus!

//! Tiling controls: which tiled surface a control acts on, which viewport moves it stages, and
//! how focus follows; the column/row state itself is kept by the workspace tiling state, whose
//! operations the caller performs between [`tiling_control_request_system`] and [`finish_tiling_control`].

#[allow(unused_imports)]
use vstd::prelude::*;
use crate::geometry::{intersects_viewport, output_for_workspace, projected, resolve_output_state_for_workspace, scene_geometry_intersects_viewport, project_scene_geometry};
use crate::model::{OutputRecord, SurfaceGeometry, WindowLayout, WindowMode, WindowSceneGeometry, WorkArea};
use crate::search::{first_index, first_index_from, lemma_first_index_bounds};
use crate::text::eq_lit;
use crate::shortcuts::{has_id, ids_unique, register_builtin, ShortcutRegistry, ShortcutTrigger, ShortcutView};

verus! {

/// Column/row tiled layout with snapped viewport semantics.
#[derive(Clone, Copy, Debug, PartialEq, Eq, Structural)]
pub struct TilingLayout;

/// Horizontal direction of a tiling control.
#[derive(Clone, Copy, Debug, PartialEq, Eq, Structural)]
pub enum HorizontalDirection {
    Left,
    Right,
}

/// Vertical direction of a tiling control.
#[derive(Clone, Copy, Debug, PartialEq, Eq, Structural)]
pub enum VerticalDirection {
    Up,
    Down,
}

/// Direction of a viewport pan.
#[derive(Clone, Copy, Debug, PartialEq, Eq, Structural)]
pub enum TilingPanDirection {
    Left,
    Right,
    Up,
    Down,
}

/// A staged tiling control.
#[derive(Clone, Copy, Debug, PartialEq, Eq, Structural)]
pub enum TilingControl {
    FocusColumn { direction: HorizontalDirection },
    FocusWindow { direction: VerticalDirection },
    MoveColumn { direction: HorizontalDirection },
    MoveWindow { direction: VerticalDirection },
    ConsumeIntoColumn { direction: HorizontalDirection },
    ExpelFromColumn { direction: HorizontalDirection },
    PanViewport { direction: TilingPanDirection },
}

/// A window as the tiling controls see it.
#[derive(Clone, Copy, Debug, PartialEq, Eq, Structural)]
pub struct TilingWindow {
    pub surface_id: u64,
    /// Whether the window has the managed role (not an output background).
    pub managed: bool,
    pub layout: WindowLayout,
    pub mode: WindowMode,
    pub helper_surface: bool,
    pub workspace: Option<u32>,
    pub scene_geometry: WindowSceneGeometry,
}

/// Window with a given surface id.
pub open spec fn tiling_window_with(surface_id: u64) -> spec_fn(TilingWindow) -> bool {
    |window: TilingWindow| window.surface_id == surface_id
}

/// A window that tiling controls may act on: managed, tiled, not hidden, not a helper.
pub open spec fn acts_as_tile(window: TilingWindow) -> bool {
    window.managed && window.layout == WindowLayout::Tiled && window.mode != WindowMode::Hidden
        && !window.helper_surface
}

/// Tiling workspace of a window: its workspace, or the unassigned tiling id.
pub open spec fn tiling_workspace_of(window: TilingWindow, unassigned_tiling: u32) -> u32 {
    match window.workspace {
        Some(id) => id,
        None => unassigned_tiling,
    }
}

/// Focused surface and its tiling workspace, when the focused surface is a tile.
pub open spec fn focused_tile(
    focus: Option<u64>,
    windows: Seq<TilingWindow>,
    unassigned_tiling: u32,
) -> Option<(u64, u32)> {
    match focus {
        Some(surface) => match first_index(windows, tiling_window_with(surface)) {
            Some(i) => if acts_as_tile(windows[i]) {
                Some((surface, tiling_workspace_of(windows[i], unassigned_tiling)))
            } else {
                None
            },
            None => None,
        },
        None => None,
    }
}

fn find_tiling_window(windows: &Vec<TilingWindow>, surface_id: u64) -> (index: Option<usize>)
    ensures
        match index {
            Some(i) => first_index(windows@, tiling_window_with(surface_id)) == Some(i as int),
            None => first_index(windows@, tiling_window_with(surface_id)) is None,
        },
{
    let mut i: usize = 0;
    while i < windows.len()
        invariant
            i <= windows@.len(),
            first_index(windows@, tiling_window_with(surface_id)) == first_index_from(
                windows@,
                tiling_window_with(surface_id),
                i as int,
            ),
        decreases windows.len() - i,
    {
        if windows[i].surface_id == surface_id {
            return Some(i);
        }
        i += 1;
    }
    None
}

/// The focused surface and its tiling workspace, when the focused surface is a managed, tiled,
/// visible, non-helper window.
pub fn focused_tiled_surface_context(
    focus: Option<u64>,
    windows: &Vec<TilingWindow>,
    unassigned_tiling: u32,
) -> (context: Option<(u64, u32)>)
    ensures
        context == focused_tile(focus, windows@, unassigned_tiling),
{
    let surface = match focus {
        Some(surface) => surface,
        None => return None,
    };
    proof {
        lemma_first_index_bounds(windows@, tiling_window_with(surface), 0);
    }
    let i = match find_tiling_window(windows, surface) {
        Some(i) => i,
        None => return None,
    };
    let window = windows[i];
    if !window.managed || window.layout != WindowLayout::Tiled || window.mode == WindowMode::Hidden
        || window.helper_surface {
        return None;
    }
    let workspace = match window.workspace {
        Some(id) => id,
        None => unassigned_tiling,
    };
    Some((surface, workspace))
}

/// A viewport origin staged for an output.
#[derive(Clone, Debug)]
pub struct StagedViewport {
    pub output: String,
    pub x: isize,
    pub y: isize,
}

/// Staged entry for an output name.
pub open spec fn staged_for(name: Seq<char>) -> spec_fn(StagedViewport) -> bool {
    |entry: StagedViewport| entry.output@ == name
}

/// Origin staged for an output name.
pub open spec fn staged_origin(staged: Seq<StagedViewport>, name: Seq<char>) -> Option<(isize, isize)> {
    match first_index(staged, staged_for(name)) {
        Some(i) => Some((staged[i].x, staged[i].y)),
        None => None,
    }
}

/// Output names of the staged entries, in order.
pub open spec fn staged_names(staged: Seq<StagedViewport>) -> Seq<Seq<char>> {
    staged.map_values(|entry: StagedViewport| entry.output@)
}

fn find_staged(staged: &Vec<StagedViewport>, name: &String) -> (index: Option<usize>)
    ensures
        match index {
            Some(i) => first_index(staged@, staged_for(name@)) == Some(i as int),
            None => first_index(staged@, staged_for(name@)) is None,
        },
{
    let mut i: usize = 0;
    while i < staged.len()
        invariant
            i <= staged@.len(),
            first_index(staged@, staged_for(name@)) == first_index_from(
                staged@,
                staged_for(name@),
                i as int,
            ),
        decreases staged.len() - i,
    {
        if staged[i].output == *name {
            return Some(i);
        }
        i += 1;
    }
    None
}

/// Stages a viewport origin for an output, replacing an earlier one for the same output.
pub fn stage_viewport(staged: &mut Vec<StagedViewport>, output: String, x: isize, y: isize)
    ensures
        staged_origin(final(staged)@, output@) == Some((x, y)),
        forall|name: Seq<char>|
            name != output@ ==> staged_origin(final(staged)@, name) == staged_origin(
                old(staged)@,
                name,
            ),
{
    let ghost before = staged@;
    proof {
        lemma_first_index_bounds(before, staged_for(output@), 0);
    }
    match find_staged(staged, &output) {
        Some(i) => {
            let entry = StagedViewport { output, x, y };
            staged.set(i, entry);
            proof {
                assert forall|name: Seq<char>| true implies first_index(
                    staged@,
                    staged_for(name),
                ) == first_index(before, staged_for(name)) by {
                    assert forall|j: int| 0 <= j < before.len() implies staged_for(name)(
                        #[trigger] staged@[j],
                    ) == staged_for(name)(before[j]) by {
                        if j == i as int {
                            assert(staged@[j].output@ == before[j].output@);
                        }
                    }
                    crate::search::lemma_first_index_same(staged@, before, staged_for(name), 0);
                }
                assert forall|name: Seq<char>| name != entry.output@ implies staged_origin(
                    staged@,
                    name,
                ) == staged_origin(before, name) by {
                    lemma_first_index_bounds(before, staged_for(name), 0);
                    assert(first_index(staged@, staged_for(name)) == first_index(
                        before,
                        staged_for(name),
                    ));
                }
                assert(first_index(staged@, staged_for(entry.output@)) == Some(i as int));
            }
        },
        None => {
            let entry = StagedViewport { output, x, y };
            staged.push(entry);
            proof {
                assert(staged@ == before.push(entry));
                assert forall|name: Seq<char>| true implies #[trigger] first_index(
                    staged@,
                    staged_for(name),
                ) == (if first_index(before, staged_for(name)) is Some {
                    first_index(before, staged_for(name))
                } else if staged_for(name)(entry) {
                    Some(before.len() as int)
                } else {
                    None::<int>
                }) by {
                    crate::search::lemma_first_index_push(before, entry, staged_for(name), 0);
                }
                assert forall|name: Seq<char>| name != entry.output@ implies staged_origin(
                    staged@,
                    name,
                ) == staged_origin(before, name) by {
                    lemma_first_index_bounds(before, staged_for(name), 0);
                    if let Some(k) = first_index(before, staged_for(name)) {
                        assert(staged@[k] == before[k]);
                    }
                }
                assert(first_index(staged@, staged_for(entry.output@)) == Some(before.len() as int));
            }
        },
    }
}

/// Output context of a tiling workspace: the output it is shown on (the output showing it, else
/// the primary, else the first output), with the staged origin for that output if any, else its
/// viewport origin, and its work area.
pub struct TilingOutputContext {
    pub output: String,
    pub origin_x: isize,
    pub origin_y: isize,
    pub work_area: WorkArea,
}

/// Index of the output that a tiling workspace is shown on.
pub open spec fn tiling_output_index(
    outputs: Seq<OutputRecord>,
    workspace: u32,
    primary_output: Option<u64>,
) -> Option<int> {
    output_for_workspace(outputs, Some(workspace), primary_output)
}

/// Output context of a tiling workspace; see [`TilingOutputContext`].
pub fn tiling_output_context(
    outputs: &Vec<OutputRecord>,
    primary_output: Option<u64>,
    workspace: u32,
    staged: &Vec<StagedViewport>,
) -> (context: Option<TilingOutputContext>)
    ensures
        match tiling_output_index(outputs@, workspace, primary_output) {
            Some(o) => context matches Some(context) && {
                let output = outputs@[o];
                &&& context.output@ == output.name@
                &&& (context.origin_x, context.origin_y) == match staged_origin(
                    staged@,
                    output.name@,
                ) {
                    Some(origin) => origin,
                    None => (output.viewport.origin_x, output.viewport.origin_y),
                }
                &&& context.work_area == output.work_area
            },
            None => context is None,
        },
{
    let o = match resolve_output_state_for_workspace(outputs, Some(workspace), primary_output) {
        Some(o) => o,
        None => return None,
    };
    let name = outputs[o].name.clone();
    proof {
        lemma_first_index_bounds(staged@, staged_for(name@), 0);
    }
    let (origin_x, origin_y) = match find_staged(staged, &name) {
        Some(i) => (staged[i].x, staged[i].y),
        None => (outputs[o].viewport.origin_x, outputs[o].viewport.origin_y),
    };
    Some(TilingOutputContext { output: name, origin_x, origin_y, work_area: outputs[o].work_area })
}

/// What to do with the tiling state for one control.
pub enum TilingPlan {
    /// No focused tile (or, for a pan, no output): nothing to do.
    Skip,
    /// Ask the tiling state for the neighbour to focus.
    Focus { workspace: u32, surface_id: u64, control: TilingControl },
    /// Apply a structural change to the focused tile; `anchor_output` names the output and work area to
    /// compare the snapped anchor of the tile on, before and after.
    Restructure {
        workspace: u32,
        surface_id: u64,
        control: TilingControl,
        anchor_output: Option<(String, WorkArea)>,
    },
    /// Ask the tiling state for the snapped origin after a pan from the given origin.
    Pan {
        workspace: u32,
        output: String,
        work_area: WorkArea,
        origin_x: isize,
        origin_y: isize,
        direction: TilingPanDirection,
    },
}

/// What the tiling state answered for a plan.
pub enum TilingOutcome {
    /// For a focus plan: the surface to focus, if any.
    Focus { target: Option<u64> },
    /// For a restructure plan: whether the change applied, and the snapped anchor of the tile
    /// before and after it.
    Restructure {
        changed: bool,
        previous_anchor: Option<(isize, isize)>,
        next_anchor: Option<(isize, isize)>,
    },
    /// For a pan plan: the snapped target origin, if any.
    Pan { target: Option<(isize, isize)> },
}

/// Whether a control changes focus rather than structure.
pub open spec fn is_focus_control(control: TilingControl) -> bool {
    control is FocusColumn || control is FocusWindow
}

/// Plan of a control: skip without a focused tile; a focus query for focus controls; a
/// restructure (with the reveal context of the workspace's output) for move / consume / expel;
/// a pan from the output's current (or staged) origin, skipped without an output.
pub open spec fn tiling_plan_spec(
    control: TilingControl,
    focus: Option<u64>,
    windows: Seq<TilingWindow>,
    unassigned_tiling: u32,
    outputs: Seq<OutputRecord>,
    primary_output: Option<u64>,
    staged: Seq<StagedViewport>,
    plan: TilingPlan,
) -> bool {
    match focused_tile(focus, windows, unassigned_tiling) {
        None => plan is Skip,
        Some((surface, workspace)) => {
            let o = tiling_output_index(outputs, workspace, primary_output);
            match control {
                TilingControl::PanViewport { direction } => match o {
                    None => plan is Skip,
                    Some(o) => plan matches TilingPlan::Pan {
                        workspace: w,
                        output,
                        work_area,
                        origin_x,
                        origin_y,
                        direction: d,
                    } && w == workspace && output@ == outputs[o].name@ && work_area
                        == outputs[o].work_area && d == direction && (origin_x, origin_y)
                        == match staged_origin(staged, outputs[o].name@) {
                        Some(origin) => origin,
                        None => (outputs[o].viewport.origin_x, outputs[o].viewport.origin_y),
                    },
                },
                _ => if is_focus_control(control) {
                    plan == TilingPlan::Focus { workspace, surface_id: surface, control }
                } else {
                    plan matches TilingPlan::Restructure {
                        workspace: w,
                        surface_id: s,
                        control: c,
                        anchor_output,
                    } && w == workspace && s == surface && c == control && match o {
                        None => anchor_output is None,
                        Some(o) => anchor_output matches Some((name, area)) && name@ == outputs[o].name@
                            && area == outputs[o].work_area,
                    }
                },
            }
        },
    }
}

/// Plans one tiling control; see [`tiling_plan_spec`].
pub fn tiling_control_request_system(
    control: TilingControl,
    focus: Option<u64>,
    windows: &Vec<TilingWindow>,
    unassigned_tiling: u32,
    outputs: &Vec<OutputRecord>,
    primary_output: Option<u64>,
    staged: &Vec<StagedViewport>,
) -> (plan: TilingPlan)
    ensures
        tiling_plan_spec(
            control,
            focus,
            windows@,
            unassigned_tiling,
            outputs@,
            primary_output,
            staged@,
            plan,
        ),
{
    let (surface, workspace) = match focused_tiled_surface_context(focus, windows, unassigned_tiling) {
        Some(context) => context,
        None => return TilingPlan::Skip,
    };
    let context = tiling_output_context(outputs, primary_output, workspace, staged);
    match control {
        TilingControl::PanViewport { direction } => match context {
            None => TilingPlan::Skip,
            Some(context) => TilingPlan::Pan {
                workspace,
                output: context.output,
                work_area: context.work_area,
                origin_x: context.origin_x,
                origin_y: context.origin_y,
                direction,
            },
        },
        TilingControl::FocusColumn { .. } | TilingControl::FocusWindow { .. } => {
            TilingPlan::Focus { workspace, surface_id: surface, control }
        },
        _ => TilingPlan::Restructure {
            workspace,
            surface_id: surface,
            control,
            anchor_output: match context {
                Some(context) => Some((context.output, context.work_area)),
                None => None,
            },
        },
    }
}

/// Raise of a surface on its workspace stack.
#[derive(Clone, Copy, Debug, PartialEq, Eq, Structural)]
pub struct StackRaise {
    pub workspace: u32,
    pub surface_id: u64,
}

/// Finishes one control with the tiling state's answer: a focus result moves keyboard focus to
/// the target and raises it; an applied restructure raises the tile and, when its snapped anchor
/// moved, stages the new anchor for the reveal output; a pan target is staged for its output.
/// Returns the raise to perform, if any.
pub fn finish_tiling_control(
    plan: TilingPlan,
    outcome: TilingOutcome,
    focus: &mut Option<u64>,
    staged: &mut Vec<StagedViewport>,
) -> (raise: Option<StackRaise>)
    ensures
        match (plan, outcome) {
            (
                TilingPlan::Focus { workspace, .. },
                TilingOutcome::Focus { target: Some(target) },
            ) => {
                &&& *final(focus) == Some(target)
                &&& raise == Some(StackRaise { workspace, surface_id: target })
                &&& final(staged)@ == old(staged)@
            },
            (
                TilingPlan::Restructure { workspace, surface_id, anchor_output, .. },
                TilingOutcome::Restructure { changed: true, previous_anchor, next_anchor },
            ) => {
                &&& *final(focus) == *old(focus)
                &&& raise == Some(StackRaise { workspace, surface_id })
                &&& match (anchor_output, next_anchor) {
                    (Some((name, _)), Some(anchor)) => if Some(anchor) != previous_anchor {
                        &&& staged_origin(final(staged)@, name@) == Some(anchor)
                        &&& forall|other: Seq<char>|
                            other != name@ ==> staged_origin(final(staged)@, other)
                                == staged_origin(old(staged)@, other)
                    } else {
                        final(staged)@ == old(staged)@
                    },
                    _ => final(staged)@ == old(staged)@,
                }
            },
            (TilingPlan::Pan { output, .. }, TilingOutcome::Pan { target: Some(target) }) => {
                &&& *final(focus) == *old(focus)
                &&& raise is None
                &&& staged_origin(final(staged)@, output@) == Some(target)
                &&& forall|other: Seq<char>|
                    other != output@ ==> staged_origin(final(staged)@, other) == staged_origin(
                        old(staged)@,
                        other,
                    )
            },
            _ => {
                &&& *final(focus) == *old(focus)
                &&& raise is None
                &&& final(staged)@ == old(staged)@
            },
        },
{
    match (plan, outcome) {
        (TilingPlan::Focus { workspace, .. }, TilingOutcome::Focus { target: Some(target) }) => {
            *focus = Some(target);
            Some(StackRaise { workspace, surface_id: target })
        },
        (
            TilingPlan::Restructure { workspace, surface_id, anchor_output, .. },
            TilingOutcome::Restructure { changed: true, previous_anchor, next_anchor },
        ) => {
            if let Some((name, _)) = anchor_output {
                if let Some(anchor) = next_anchor {
                    if Some(anchor) != previous_anchor {
                        stage_viewport(staged, name, anchor.0, anchor.1);
                    }
                }
            }
            Some(StackRaise { workspace, surface_id })
        },
        (TilingPlan::Pan { output, .. }, TilingOutcome::Pan { target: Some(target) }) => {
            stage_viewport(staged, output, target.0, target.1);
            None
        },
        _ => None,
    }
}

/// Viewport move that reveals a newly focused tile: the output and work area to ask the tiling
/// state for the tile's snapped origin on.
#[derive(Clone, Debug)]
pub struct AutoAlignPlan {
    pub workspace: u32,
    pub surface_id: u64,
    pub output: String,
    pub work_area: WorkArea,
}

/// When focus changed to a tile that lies entirely outside the viewport of its workspace's
/// output, that output and work area; else nothing.
pub open spec fn auto_align_spec(
    previous: Option<u64>,
    focus: Option<u64>,
    windows: Seq<TilingWindow>,
    outputs: Seq<OutputRecord>,
    primary_output: Option<u64>,
    unassigned_tiling: u32,
    plan: Option<AutoAlignPlan>,
) -> bool {
    if focus == previous {
        plan is None
    } else {
        match focused_tile(focus, windows, unassigned_tiling) {
            None => plan is None,
            Some((surface, workspace)) => {
                let window = windows[first_index(windows, tiling_window_with(surface))->0];
                match tiling_output_index(outputs, workspace, primary_output) {
                    None => plan is None,
                    Some(o) => if intersects_viewport(
                        window.scene_geometry,
                        outputs[o].viewport,
                        outputs[o].properties,
                    ) {
                        plan is None
                    } else {
                        plan matches Some(plan) && plan.workspace == workspace && plan.surface_id
                            == surface && plan.output@ == outputs[o].name@ && plan.work_area
                            == outputs[o].work_area
                    },
                }
            },
        }
    }
}

/// Tracks the focused surface and, when focus moved to a tile entirely outside the viewport of
/// its output, plans one snapped viewport move to reveal it; see [`auto_align_spec`].
pub fn tiling_focus_auto_align_system(
    previous_focus: &mut Option<u64>,
    focus: Option<u64>,
    windows: &Vec<TilingWindow>,
    outputs: &Vec<OutputRecord>,
    primary_output: Option<u64>,
    unassigned_tiling: u32,
) -> (plan: Option<AutoAlignPlan>)
    ensures
        *final(previous_focus) == focus,
        auto_align_spec(
            *old(previous_focus),
            focus,
            windows@,
            outputs@,
            primary_output,
            unassigned_tiling,
            plan,
        ),
{
    let changed = focus != *previous_focus;
    *previous_focus = focus;
    if !changed {
        return None;
    }
    let (surface, workspace) = match focused_tiled_surface_context(focus, windows, unassigned_tiling) {
        Some(context) => context,
        None => return None,
    };
    proof {
        lemma_first_index_bounds(windows@, tiling_window_with(surface), 0);
    }
    let i = match find_tiling_window(windows, surface) {
        Some(i) => i,
        None => return None,
    };
    let o = match resolve_output_state_for_workspace(outputs, Some(workspace), primary_output) {
        Some(o) => o,
        None => return None,
    };
    if scene_geometry_intersects_viewport(
        &windows[i].scene_geometry,
        &outputs[o].viewport,
        &outputs[o].properties,
    ) {
        return None;
    }
    Some(
        AutoAlignPlan {
            workspace,
            surface_id: surface,
            output: outputs[o].name.clone(),
            work_area: outputs[o].work_area,
        },
    )
}

/// Surfaces that the tiling layout arranges, with their tiling workspace: managed tiled windows,
/// in order.
pub open spec fn tiled_surfaces_spec(windows: Seq<TilingWindow>, unassigned_tiling: u32) -> Seq<
    (u64, u32),
>
    decreases windows.len(),
{
    if windows.len() == 0 {
        seq![]
    } else {
        let rest = tiled_surfaces_spec(windows.drop_last(), unassigned_tiling);
        let window = windows.last();
        if window.managed && window.layout == WindowLayout::Tiled {
            rest.push((window.surface_id, tiling_workspace_of(window, unassigned_tiling)))
        } else {
            rest
        }
    }
}

/// Surfaces that the tiling layout arranges, with their tiling workspace, in window order.
pub fn tiled_surfaces(windows: &Vec<TilingWindow>, unassigned_tiling: u32) -> (surfaces: Vec<
    (u64, u32),
>)
    ensures
        surfaces@ == tiled_surfaces_spec(windows@, unassigned_tiling),
{
    let mut surfaces: Vec<(u64, u32)> = Vec::new();
    let mut i: usize = 0;
    while i < windows.len()
        invariant
            i <= windows@.len(),
            surfaces@ == tiled_surfaces_spec(windows@.take(i as int), unassigned_tiling),
        decreases windows.len() - i,
    {
        proof {
            assert(windows@.take(i + 1).drop_last() =~= windows@.take(i as int));
        }
        let window = windows[i];
        if window.managed && window.layout == WindowLayout::Tiled {
            let workspace = match window.workspace {
                Some(id) => id,
                None => unassigned_tiling,
            };
            surfaces.push((window.surface_id, workspace));
        }
        i += 1;
    }
    assert(windows@.take(i as int) =~= windows@);
    surfaces
}

/// Area that a tiling workspace is arranged in: the work area of its output, else the global
/// work area.
pub fn tiling_workspace_area(
    outputs: &Vec<OutputRecord>,
    workspace: u32,
    primary_output: Option<u64>,
    fallback: WorkArea,
) -> (area: WorkArea)
    ensures
        area == match tiling_output_index(outputs@, workspace, primary_output) {
            Some(o) => outputs@[o].work_area,
            None => fallback,
        },
{
    match resolve_output_state_for_workspace(outputs, Some(workspace), primary_output) {
        Some(o) => outputs[o].work_area,
        None => fallback,
    }
}

/// Scene and output-local geometry of a tile arranged at `arranged` (scene coordinates): the
/// scene rectangle is the arranged one; the local one is its projection through the viewport of
/// the workspace's output, or the arranged rectangle itself without an output.
pub fn arranged_tile_geometry(
    arranged: SurfaceGeometry,
    outputs: &Vec<OutputRecord>,
    workspace: u32,
    primary_output: Option<u64>,
) -> (geometry: (WindowSceneGeometry, SurfaceGeometry))
    ensures
        geometry.0 == (WindowSceneGeometry {
            x: arranged.x as isize,
            y: arranged.y as isize,
            width: arranged.width,
            height: arranged.height,
        }),
        geometry.1 == match tiling_output_index(outputs@, workspace, primary_output) {
            Some(o) => projected(geometry.0, outputs@[o].viewport),
            None => arranged,
        },
{
    let scene = WindowSceneGeometry {
        x: arranged.x as isize,
        y: arranged.y as isize,
        width: arranged.width,
        height: arranged.height,
    };
    let local = match resolve_output_state_for_workspace(outputs, Some(workspace), primary_output) {
        Some(o) => project_scene_geometry(&scene, &outputs[o].viewport),
        None => arranged,
    };
    (scene, local)
}

/// Geometry the tiling layout gives one window.
#[derive(Clone, Copy, Debug, PartialEq, Eq, Structural)]
pub struct TileUpdate {
    pub surface_id: u64,
    pub scene_geometry: WindowSceneGeometry,
    pub geometry: SurfaceGeometry,
}

/// Arranged rectangle of a surface: the last one given for it (later workspaces override
/// earlier ones).
pub open spec fn arranged_for(arranged: Seq<(u64, SurfaceGeometry)>, surface_id: u64) -> Option<SurfaceGeometry>
    decreases arranged.len(),
{
    if arranged.len() == 0 {
        None
    } else if arranged.last().0 == surface_id {
        Some(arranged.last().1)
    } else {
        arranged_for(arranged.drop_last(), surface_id)
    }
}

/// What the layout pass does to one window: a managed window with an arranged rectangle takes
/// it as its scene rectangle, and its projection through the viewport of its tiling workspace's
/// output (or the rectangle itself without one) as its output-local rectangle.
pub open spec fn tile_update(
    window: TilingWindow,
    arranged: Seq<(u64, SurfaceGeometry)>,
    outputs: Seq<OutputRecord>,
    primary_output: Option<u64>,
    unassigned_tiling: u32,
) -> Option<TileUpdate> {
    if !window.managed {
        None
    } else {
        match arranged_for(arranged, window.surface_id) {
            None => None,
            Some(a) => {
                let scene = WindowSceneGeometry { x: a.x as isize, y: a.y as isize, width: a.width, height: a.height };
                Some(
                    TileUpdate {
                        surface_id: window.surface_id,
                        scene_geometry: scene,
                        geometry: match tiling_output_index(
                            outputs,
                            tiling_workspace_of(window, unassigned_tiling),
                            primary_output,
                        ) {
                            Some(o) => projected(scene, outputs[o].viewport),
                            None => a,
                        },
                    },
                )
            },
        }
    }
}

/// Updates of the layout pass, in window order.
pub open spec fn tile_updates(
    windows: Seq<TilingWindow>,
    arranged: Seq<(u64, SurfaceGeometry)>,
    outputs: Seq<OutputRecord>,
    primary_output: Option<u64>,
    unassigned_tiling: u32,
) -> Seq<TileUpdate>
    decreases windows.len(),
{
    if windows.len() == 0 {
        seq![]
    } else {
        let rest = tile_updates(windows.drop_last(), arranged, outputs, primary_output, unassigned_tiling);
        match tile_update(windows.last(), arranged, outputs, primary_output, unassigned_tiling) {
            Some(update) => rest.push(update),
            None => rest,
        }
    }
}

fn find_arranged(arranged: &Vec<(u64, SurfaceGeometry)>, surface_id: u64) -> (found: Option<SurfaceGeometry>)
    ensures
        found == arranged_for(arranged@, surface_id),
{
    let mut i: usize = arranged.len();
    assert(arranged@.take(i as int) =~= arranged@);
    while i > 0
        invariant
            i <= arranged@.len(),
            arranged_for(arranged@, surface_id) == arranged_for(arranged@.take(i as int), surface_id),
        decreases i,
    {
        proof {
            assert(arranged@.take(i as int).drop_last() =~= arranged@.take(i - 1));
            assert(arranged@.take(i as int).last() == arranged@[i - 1]);
        }
        let (surface, geometry) = arranged[i - 1];
        if surface == surface_id {
            return Some(geometry);
        }
        i -= 1;
    }
    None
}

/// Applies the arranged tile rectangles (the column state's arrangement of each tiling
/// workspace, in ascending workspace order) to the windows; see [`tile_update`]. The surfaces to
/// arrange come from [`tiled_surfaces`] and each workspace's area from [`tiling_workspace_area`].
pub fn apply_arranged_tiles(
    windows: &Vec<TilingWindow>,
    arranged: &Vec<(u64, SurfaceGeometry)>,
    outputs: &Vec<OutputRecord>,
    primary_output: Option<u64>,
    unassigned_tiling: u32,
) -> (updates: Vec<TileUpdate>)
    ensures
        updates@ == tile_updates(windows@, arranged@, outputs@, primary_output, unassigned_tiling),
{
    let mut updates: Vec<TileUpdate> = Vec::new();
    let mut i: usize = 0;
    while i < windows.len()
        invariant
            i <= windows@.len(),
            updates@ == tile_updates(windows@.take(i as int), arranged@, outputs@, primary_output, unassigned_tiling),
        decreases windows.len() - i,
    {
        proof {
            assert(windows@.take(i + 1).drop_last() =~= windows@.take(i as int));
            assert(windows@.take(i + 1).last() == windows@[i as int]);
        }
        let window = windows[i];
        if window.managed {
            match find_arranged(arranged, window.surface_id) {
                Some(a) => {
                    let workspace = match window.workspace {
                        Some(id) => id,
                        None => unassigned_tiling,
                    };
                    let (scene, local) = arranged_tile_geometry(a, outputs, workspace, primary_output);
                    updates.push(TileUpdate { surface_id: window.surface_id, scene_geometry: scene, geometry: local });
                },
                None => {},
            }
        }
        i += 1;
    }
    assert(windows@.take(i as int) =~= windows@);
    updates
}

/// Identifiers of the tiling shortcuts, in the order their controls are queued.
pub open spec fn tiling_shortcut_ids() -> Seq<Seq<char>> {
    seq![
        "tiling.focus_column.left"@,
        "tiling.focus_column.right"@,
        "tiling.focus_window.up"@,
        "tiling.focus_window.down"@,
        "tiling.move_column.left"@,
        "tiling.move_column.right"@,
        "tiling.move_window.up"@,
        "tiling.move_window.down"@,
        "tiling.consume.left"@,
        "tiling.consume.right"@,
        "tiling.expel.left"@,
        "tiling.expel.right"@,
        "tiling.pan.left"@,
        "tiling.pan.right"@,
        "tiling.pan.up"@,
        "tiling.pan.down"@,
    ]
}

/// Control queued by the `k`-th tiling shortcut.
pub open spec fn tiling_shortcut_control(k: int) -> TilingControl {
    if k == 0 {
        TilingControl::FocusColumn { direction: HorizontalDirection::Left }
    } else if k == 1 {
        TilingControl::FocusColumn { direction: HorizontalDirection::Right }
    } else if k == 2 {
        TilingControl::FocusWindow { direction: VerticalDirection::Up }
    } else if k == 3 {
        TilingControl::FocusWindow { direction: VerticalDirection::Down }
    } else if k == 4 {
        TilingControl::MoveColumn { direction: HorizontalDirection::Left }
    } else if k == 5 {
        TilingControl::MoveColumn { direction: HorizontalDirection::Right }
    } else if k == 6 {
        TilingControl::MoveWindow { direction: VerticalDirection::Up }
    } else if k == 7 {
        TilingControl::MoveWindow { direction: VerticalDirection::Down }
    } else if k == 8 {
        TilingControl::ConsumeIntoColumn { direction: HorizontalDirection::Left }
    } else if k == 9 {
        TilingControl::ConsumeIntoColumn { direction: HorizontalDirection::Right }
    } else if k == 10 {
        TilingControl::ExpelFromColumn { direction: HorizontalDirection::Left }
    } else if k == 11 {
        TilingControl::ExpelFromColumn { direction: HorizontalDirection::Right }
    } else if k == 12 {
        TilingControl::PanViewport { direction: TilingPanDirection::Left }
    } else if k == 13 {
        TilingControl::PanViewport { direction: TilingPanDirection::Right }
    } else if k == 14 {
        TilingControl::PanViewport { direction: TilingPanDirection::Up }
    } else {
        TilingControl::PanViewport { direction: TilingPanDirection::Down }
    }
}

/// Whether a shortcut id is among the just-pressed ones.
pub open spec fn is_pressed(pressed: Seq<String>, id: Seq<char>) -> bool {
    exists|i: int| 0 <= i < pressed.len() && (#[trigger] pressed[i])@ == id
}

/// Controls queued for the just-pressed tiling shortcuts, in the fixed shortcut order, for the
/// first `k` shortcuts.
pub open spec fn pressed_controls(pressed: Seq<String>, k: int) -> Seq<TilingControl>
    decreases k,
{
    if k <= 0 {
        seq![]
    } else {
        let rest = pressed_controls(pressed, k - 1);
        if is_pressed(pressed, tiling_shortcut_ids()[k - 1]) {
            rest.push(tiling_shortcut_control(k - 1))
        } else {
            rest
        }
    }
}

fn pressed_contains(pressed: &Vec<String>, id: &str) -> (result: bool)
    ensures
        result == is_pressed(pressed@, id@),
{
    let mut i: usize = 0;
    while i < pressed.len()
        invariant
            i <= pressed@.len(),
            forall|j: int| 0 <= j < i ==> (#[trigger] pressed@[j])@ != id@,
        decreases pressed.len() - i,
    {
        if eq_lit(&pressed[i], id) {
            return true;
        }
        i += 1;
    }
    false
}

fn shortcut_id(k: usize) -> (id: &'static str)
    requires
        k < 16,
    ensures
        id@ == tiling_shortcut_ids()[k as int],
{
    if k == 0 {
        "tiling.focus_column.left"
    } else if k == 1 {
        "tiling.focus_column.right"
    } else if k == 2 {
        "tiling.focus_window.up"
    } else if k == 3 {
        "tiling.focus_window.down"
    } else if k == 4 {
        "tiling.move_column.left"
    } else if k == 5 {
        "tiling.move_column.right"
    } else if k == 6 {
        "tiling.move_window.up"
    } else if k == 7 {
        "tiling.move_window.down"
    } else if k == 8 {
        "tiling.consume.left"
    } else if k == 9 {
        "tiling.consume.right"
    } else if k == 10 {
        "tiling.expel.left"
    } else if k == 11 {
        "tiling.expel.right"
    } else if k == 12 {
        "tiling.pan.left"
    } else if k == 13 {
        "tiling.pan.right"
    } else if k == 14 {
        "tiling.pan.up"
    } else {
        "tiling.pan.down"
    }
}

fn shortcut_control(k: usize) -> (control: TilingControl)
    requires
        k < 16,
    ensures
        control == tiling_shortcut_control(k as int),
{
    if k == 0 {
        TilingControl::FocusColumn { direction: HorizontalDirection::Left }
    } else if k == 1 {
        TilingControl::FocusColumn { direction: HorizontalDirection::Right }
    } else if k == 2 {
        TilingControl::FocusWindow { direction: VerticalDirection::Up }
    } else if k == 3 {
        TilingControl::FocusWindow { direction: VerticalDirection::Down }
    } else if k == 4 {
        TilingControl::MoveColumn { direction: HorizontalDirection::Left }
    } else if k == 5 {
        TilingControl::MoveColumn { direction: HorizontalDirection::Right }
    } else if k == 6 {
        TilingControl::MoveWindow { direction: VerticalDirection::Up }
    } else if k == 7 {
        TilingControl::MoveWindow { direction: VerticalDirection::Down }
    } else if k == 8 {
        TilingControl::ConsumeIntoColumn { direction: HorizontalDirection::Left }
    } else if k == 9 {
        TilingControl::ConsumeIntoColumn { direction: HorizontalDirection::Right }
    } else if k == 10 {
        TilingControl::ExpelFromColumn { direction: HorizontalDirection::Left }
    } else if k == 11 {
        TilingControl::ExpelFromColumn { direction: HorizontalDirection::Right }
    } else if k == 12 {
        TilingControl::PanViewport { direction: TilingPanDirection::Left }
    } else if k == 13 {
        TilingControl::PanViewport { direction: TilingPanDirection::Right }
    } else if k == 14 {
        TilingControl::PanViewport { direction: TilingPanDirection::Up }
    } else {
        TilingControl::PanViewport { direction: TilingPanDirection::Down }
    }
}

/// Controls queued for the just-pressed tiling shortcuts, in the fixed shortcut order.
pub fn tiling_shortcut_system(pressed: &Vec<String>) -> (controls: Vec<TilingControl>)
    ensures
        controls@ == pressed_controls(pressed@, 16),
{
    let mut controls: Vec<TilingControl> = Vec::new();
    let mut k: usize = 0;
    while k < 16
        invariant
            k <= 16,
            controls@ == pressed_controls(pressed@, k as int),
        decreases 16 - k,
    {
        if pressed_contains(pressed, shortcut_id(k)) {
            controls.push(shortcut_control(k));
        }
        k += 1;
    }
    controls
}

/// Id, description and default binding of the `k`-th tiling shortcut.
pub open spec fn tiling_shortcut_text(k: int) -> (Seq<char>, Seq<char>, Seq<char>) {
    if k == 0 {
        ("tiling.focus_column.left"@, "Focus the column to the left"@, "Super+H"@)
    } else if k == 1 {
        ("tiling.focus_column.right"@, "Focus the column to the right"@, "Super+L"@)
    } else if k == 2 {
        ("tiling.focus_window.up"@, "Focus the window above in the current column"@, "Super+K"@)
    } else if k == 3 {
        ("tiling.focus_window.down"@, "Focus the window below in the current column"@, "Super+J"@)
    } else if k == 4 {
        ("tiling.move_column.left"@, "Move the focused column to the left"@, "Super+Shift+H"@)
    } else if k == 5 {
        ("tiling.move_column.right"@, "Move the focused column to the right"@, "Super+Shift+L"@)
    } else if k == 6 {
        ("tiling.move_window.up"@, "Move the focused window upward in its column"@, "Super+Shift+K"@)
    } else if k == 7 {
        ("tiling.move_window.down"@, "Move the focused window downward in its column"@, "Super+Shift+J"@)
    } else if k == 8 {
        ("tiling.consume.left"@, "Consume the focused window into the column to the left"@, "Super+Ctrl+H"@)
    } else if k == 9 {
        ("tiling.consume.right"@, "Consume the focused window into the column to the right"@, "Super+Ctrl+L"@)
    } else if k == 10 {
        ("tiling.expel.left"@, "Expel the focused window into a new column on the left"@, "Super+Ctrl+Shift+H"@)
    } else if k == 11 {
        ("tiling.expel.right"@, "Expel the focused window into a new column on the right"@, "Super+Ctrl+Shift+L"@)
    } else if k == 12 {
        ("tiling.pan.left"@, "Pan the tiling viewport one column to the left"@, "Super+Alt+H"@)
    } else if k == 13 {
        ("tiling.pan.right"@, "Pan the tiling viewport one column to the right"@, "Super+Alt+L"@)
    } else if k == 14 {
        ("tiling.pan.up"@, "Pan the tiling viewport one row up in the focused column"@, "Super+Alt+K"@)
    } else {
        ("tiling.pan.down"@, "Pan the tiling viewport one row down in the focused column"@, "Super+Alt+J"@)
    }
}

/// The `k`-th tiling shortcut as registered.
pub open spec fn tiling_shortcut_view(k: int) -> ShortcutView {
    ShortcutView {
        id: tiling_shortcut_text(k).0,
        owner: "tiling"@,
        description: tiling_shortcut_text(k).1,
        default_binding: tiling_shortcut_text(k).2,
        trigger: ShortcutTrigger::Press,
    }
}

fn tiling_shortcut_entry(k: usize) -> (entry: (&'static str, &'static str, &'static str))
    requires
        k < 16,
    ensures
        (entry.0@, entry.1@, entry.2@) == tiling_shortcut_text(k as int),
{
    if k == 0 {
        ("tiling.focus_column.left", "Focus the column to the left", "Super+H")
    } else if k == 1 {
        ("tiling.focus_column.right", "Focus the column to the right", "Super+L")
    } else if k == 2 {
        ("tiling.focus_window.up", "Focus the window above in the current column", "Super+K")
    } else if k == 3 {
        ("tiling.focus_window.down", "Focus the window below in the current column", "Super+J")
    } else if k == 4 {
        ("tiling.move_column.left", "Move the focused column to the left", "Super+Shift+H")
    } else if k == 5 {
        ("tiling.move_column.right", "Move the focused column to the right", "Super+Shift+L")
    } else if k == 6 {
        ("tiling.move_window.up", "Move the focused window upward in its column", "Super+Shift+K")
    } else if k == 7 {
        ("tiling.move_window.down", "Move the focused window downward in its column", "Super+Shift+J")
    } else if k == 8 {
        ("tiling.consume.left", "Consume the focused window into the column to the left", "Super+Ctrl+H")
    } else if k == 9 {
        ("tiling.consume.right", "Consume the focused window into the column to the right", "Super+Ctrl+L")
    } else if k == 10 {
        ("tiling.expel.left", "Expel the focused window into a new column on the left", "Super+Ctrl+Shift+H")
    } else if k == 11 {
        ("tiling.expel.right", "Expel the focused window into a new column on the right", "Super+Ctrl+Shift+L")
    } else if k == 12 {
        ("tiling.pan.left", "Pan the tiling viewport one column to the left", "Super+Alt+H")
    } else if k == 13 {
        ("tiling.pan.right", "Pan the tiling viewport one column to the right", "Super+Alt+L")
    } else if k == 14 {
        ("tiling.pan.up", "Pan the tiling viewport one row up in the focused column", "Super+Alt+K")
    } else {
        ("tiling.pan.down", "Pan the tiling viewport one row down in the focused column", "Super+Alt+J")
    }
}

proof fn lemma_tiling_shortcut_ids()
    ensures
        forall|k: int| 0 <= k < 16 ==> #[trigger] tiling_shortcut_text(k).0 == tiling_shortcut_ids()[k],
        forall|j: int, k: int| 0 <= j < k < 16 ==> tiling_shortcut_ids()[j] != tiling_shortcut_ids()[k],
{
    reveal_strlit("tiling.focus_column.left");
    reveal_strlit("tiling.focus_column.right");
    reveal_strlit("tiling.focus_window.up");
    reveal_strlit("tiling.focus_window.down");
    reveal_strlit("tiling.move_column.left");
    reveal_strlit("tiling.move_column.right");
    reveal_strlit("tiling.move_window.up");
    reveal_strlit("tiling.move_window.down");
    reveal_strlit("tiling.consume.left");
    reveal_strlit("tiling.consume.right");
    reveal_strlit("tiling.expel.left");
    reveal_strlit("tiling.expel.right");
    reveal_strlit("tiling.pan.left");
    reveal_strlit("tiling.pan.right");
    reveal_strlit("tiling.pan.up");
    reveal_strlit("tiling.pan.down");
    assert(tiling_shortcut_ids().len() == 16);
    assert forall|j: int, k: int| 0 <= j < k < 16 implies tiling_shortcut_ids()[j] != tiling_shortcut_ids()[k] by {
        if j == 0 && k == 1 {
            assert(tiling_shortcut_ids()[0].len() != tiling_shortcut_ids()[1].len());
        } else if j == 0 && k == 2 {
            assert(tiling_shortcut_ids()[0].len() != tiling_shortcut_ids()[2].len());
        } else if j == 0 && k == 3 {
            assert(tiling_shortcut_ids()[0][13] != tiling_shortcut_ids()[3][13]);
        } else if j == 0 && k == 4 {
            assert(tiling_shortcut_ids()[0].len() != tiling_shortcut_ids()[4].len());
        } else if j == 0 && k == 5 {
            assert(tiling_shortcut_ids()[0][7] != tiling_shortcut_ids()[5][7]);
        } else if j == 0 && k == 6 {
            assert(tiling_shortcut_ids()[0].len() != tiling_shortcut_ids()[6].len());
        } else if j == 0 && k == 7 {
            assert(tiling_shortcut_ids()[0].len() != tiling_shortcut_ids()[7].len());
        } else if j == 0 && k == 8 {
            assert(tiling_shortcut_ids()[0].len() != tiling_shortcut_ids()[8].len());
        } else if j == 0 && k == 9 {
            assert(tiling_shortcut_ids()[0].len() != tiling_shortcut_ids()[9].len());
        } else if j == 0 && k == 10 {
            assert(tiling_shortcut_ids()[0].len() != tiling_shortcut_ids()[10].len());
        } else if j == 0 && k == 11 {
            assert(tiling_shortcut_ids()[0].len() != tiling_shortcut_ids()[11].len());
        } else if j == 0 && k == 12 {
            assert(tiling_shortcut_ids()[0].len() != tiling_shortcut_ids()[12].len());
        } else if j == 0 && k == 13 {
            assert(tiling_shortcut_ids()[0].len() != tiling_shortcut_ids()[13].len());
        } else if j == 0 && k == 14 {
            assert(tiling_shortcut_ids()[0].len() != tiling_shortcut_ids()[14].len());
        } else if j == 0 && k == 15 {
            assert(tiling_shortcut_ids()[0].len() != tiling_shortcut_ids()[15].len());
        } else if j == 1 && k == 2 {
            assert(tiling_shortcut_ids()[1].len() != tiling_shortcut_ids()[2].len());
        } else if j == 1 && k == 3 {
            assert(tiling_shortcut_ids()[1].len() != tiling_shortcut_ids()[3].len());
        } else if j == 1 && k == 4 {
            assert(tiling_shortcut_ids()[1].len() != tiling_shortcut_ids()[4].len());
        } else if j == 1 && k == 5 {
            assert(tiling_shortcut_ids()[1].len() != tiling_shortcut_ids()[5].len());
        } else if j == 1 && k == 6 {
            assert(tiling_shortcut_ids()[1].len() != tiling_shortcut_ids()[6].len());
        } else if j == 1 && k == 7 {
            assert(tiling_shortcut_ids()[1].len() != tiling_shortcut_ids()[7].len());
        } else if j == 1 && k == 8 {
            assert(tiling_shortcut_ids()[1].len() != tiling_shortcut_ids()[8].len());
        } else if j == 1 && k == 9 {
            assert(tiling_shortcut_ids()[1].len() != tiling_shortcut_ids()[9].len());
        } else if j == 1 && k == 10 {
            assert(tiling_shortcut_ids()[1].len() != tiling_shortcut_ids()[10].len());
        } else if j == 1 && k == 11 {
            assert(tiling_shortcut_ids()[1].len() != tiling_shortcut_ids()[11].len());
        } else if j == 1 && k == 12 {
            assert(tiling_shortcut_ids()[1].len() != tiling_shortcut_ids()[12].len());
        } else if j == 1 && k == 13 {
            assert(tiling_shortcut_ids()[1].len() != tiling_shortcut_ids()[13].len());
        } else if j == 1 && k == 14 {
            assert(tiling_shortcut_ids()[1].len() != tiling_shortcut_ids()[14].len());
        } else if j == 1 && k == 15 {
            assert(tiling_shortcut_ids()[1].len() != tiling_shortcut_ids()[15].len());
        } else if j == 2 && k == 3 {
            assert(tiling_shortcut_ids()[2].len() != tiling_shortcut_ids()[3].len());
        } else if j == 2 && k == 4 {
            assert(tiling_shortcut_ids()[2].len() != tiling_shortcut_ids()[4].len());
        } else if j == 2 && k == 5 {
            assert(tiling_shortcut_ids()[2].len() != tiling_shortcut_ids()[5].len());
        } else if j == 2 && k == 6 {
            assert(tiling_shortcut_ids()[2].len() != tiling_shortcut_ids()[6].len());
        } else if j == 2 && k == 7 {
            assert(tiling_shortcut_ids()[2].len() != tiling_shortcut_ids()[7].len());
        } else if j == 2 && k == 8 {
            assert(tiling_shortcut_ids()[2].len() != tiling_shortcut_ids()[8].len());
        } else if j == 2 && k == 9 {
            assert(tiling_shortcut_ids()[2].len() != tiling_shortcut_ids()[9].len());
        } else if j == 2 && k == 10 {
            assert(tiling_shortcut_ids()[2].len() != tiling_shortcut_ids()[10].len());
        } else if j == 2 && k == 11 {
            assert(tiling_shortcut_ids()[2].len() != tiling_shortcut_ids()[11].len());
        } else if j == 2 && k == 12 {
            assert(tiling_shortcut_ids()[2].len() != tiling_shortcut_ids()[12].len());
        } else if j == 2 && k == 13 {
            assert(tiling_shortcut_ids()[2].len() != tiling_shortcut_ids()[13].len());
        } else if j == 2 && k == 14 {
            assert(tiling_shortcut_ids()[2].len() != tiling_shortcut_ids()[14].len());
        } else if j == 2 && k == 15 {
            assert(tiling_shortcut_ids()[2].len() != tiling_shortcut_ids()[15].len());
        } else if j == 3 && k == 4 {
            assert(tiling_shortcut_ids()[3].len() != tiling_shortcut_ids()[4].len());
        } else if j == 3 && k == 5 {
            assert(tiling_shortcut_ids()[3][7] != tiling_shortcut_ids()[5][7]);
        } else if j == 3 && k == 6 {
            assert(tiling_shortcut_ids()[3].len() != tiling_shortcut_ids()[6].len());
        } else if j == 3 && k == 7 {
            assert(tiling_shortcut_ids()[3].len() != tiling_shortcut_ids()[7].len());
        } else if j == 3 && k == 8 {
            assert(tiling_shortcut_ids()[3].len() != tiling_shortcut_ids()[8].len());
        } else if j == 3 && k == 9 {
            assert(tiling_shortcut_ids()[3].len() != tiling_shortcut_ids()[9].len());
        } else if j == 3 && k == 10 {
            assert(tiling_shortcut_ids()[3].len() != tiling_shortcut_ids()[10].len());
        } else if j == 3 && k == 11 {
            assert(tiling_shortcut_ids()[3].len() != tiling_shortcut_ids()[11].len());
        } else if j == 3 && k == 12 {
            assert(tiling_shortcut_ids()[3].len() != tiling_shortcut_ids()[12].len());
        } else if j == 3 && k == 13 {
            assert(tiling_shortcut_ids()[3].len() != tiling_shortcut_ids()[13].len());
        } else if j == 3 && k == 14 {
            assert(tiling_shortcut_ids()[3].len() != tiling_shortcut_ids()[14].len());
        } else if j == 3 && k == 15 {
            assert(tiling_shortcut_ids()[3].len() != tiling_shortcut_ids()[15].len());
        } else if j == 4 && k == 5 {
            assert(tiling_shortcut_ids()[4].len() != tiling_shortcut_ids()[5].len());
        } else if j == 4 && k == 6 {
            assert(tiling_shortcut_ids()[4].len() != tiling_shortcut_ids()[6].len());
        } else if j == 4 && k == 7 {
            assert(tiling_shortcut_ids()[4][12] != tiling_shortcut_ids()[7][12]);
        } else if j == 4 && k == 8 {
            assert(tiling_shortcut_ids()[4].len() != tiling_shortcut_ids()[8].len());
        } else if j == 4 && k == 9 {
            assert(tiling_shortcut_ids()[4].len() != tiling_shortcut_ids()[9].len());
        } else if j == 4 && k == 10 {
            assert(tiling_shortcut_ids()[4].len() != tiling_shortcut_ids()[10].len());
        } else if j == 4 && k == 11 {
            assert(tiling_shortcut_ids()[4].len() != tiling_shortcut_ids()[11].len());
        } else if j == 4 && k == 12 {
            assert(tiling_shortcut_ids()[4].len() != tiling_shortcut_ids()[12].len());
        } else if j == 4 && k == 13 {
            assert(tiling_shortcut_ids()[4].len() != tiling_shortcut_ids()[13].len());
        } else if j == 4 && k == 14 {
            assert(tiling_shortcut_ids()[4].len() != tiling_shortcut_ids()[14].len());
        } else if j == 4 && k == 15 {
            assert(tiling_shortcut_ids()[4].len() != tiling_shortcut_ids()[15].len());
        } else if j == 5 && k == 6 {
            assert(tiling_shortcut_ids()[5].len() != tiling_shortcut_ids()[6].len());
        } else if j == 5 && k == 7 {
            assert(tiling_shortcut_ids()[5].len() != tiling_shortcut_ids()[7].len());
        } else if j == 5 && k == 8 {
            assert(tiling_shortcut_ids()[5].len() != tiling_shortcut_ids()[8].len());
        } else if j == 5 && k == 9 {
            assert(tiling_shortcut_ids()[5].len() != tiling_shortcut_ids()[9].len());
        } else if j == 5 && k == 10 {
            assert(tiling_shortcut_ids()[5].len() != tiling_shortcut_ids()[10].len());
        } else if j == 5 && k == 11 {
            assert(tiling_shortcut_ids()[5].len() != tiling_shortcut_ids()[11].len());
        } else if j == 5 && k == 12 {
            assert(tiling_shortcut_ids()[5].len() != tiling_shortcut_ids()[12].len());
        } else if j == 5 && k == 13 {
            assert(tiling_shortcut_ids()[5].len() != tiling_shortcut_ids()[13].len());
        } else if j == 5 && k == 14 {
            assert(tiling_shortcut_ids()[5].len() != tiling_shortcut_ids()[14].len());
        } else if j == 5 && k == 15 {
            assert(tiling_shortcut_ids()[5].len() != tiling_shortcut_ids()[15].len());
        } else if j == 6 && k == 7 {
            assert(tiling_shortcut_ids()[6].len() != tiling_shortcut_ids()[7].len());
        } else if j == 6 && k == 8 {
            assert(tiling_shortcut_ids()[6].len() != tiling_shortcut_ids()[8].len());
        } else if j == 6 && k == 9 {
            assert(tiling_shortcut_ids()[6].len() != tiling_shortcut_ids()[9].len());
        } else if j == 6 && k == 10 {
            assert(tiling_shortcut_ids()[6].len() != tiling_shortcut_ids()[10].len());
        } else if j == 6 && k == 11 {
            assert(tiling_shortcut_ids()[6].len() != tiling_shortcut_ids()[11].len());
        } else if j == 6 && k == 12 {
            assert(tiling_shortcut_ids()[6].len() != tiling_shortcut_ids()[12].len());
        } else if j == 6 && k == 13 {
            assert(tiling_shortcut_ids()[6].len() != tiling_shortcut_ids()[13].len());
        } else if j == 6 && k == 14 {
            assert(tiling_shortcut_ids()[6].len() != tiling_shortcut_ids()[14].len());
        } else if j == 6 && k == 15 {
            assert(tiling_shortcut_ids()[6].len() != tiling_shortcut_ids()[15].len());
        } else if j == 7 && k == 8 {
            assert(tiling_shortcut_ids()[7].len() != tiling_shortcut_ids()[8].len());
        } else if j == 7 && k == 9 {
            assert(tiling_shortcut_ids()[7].len() != tiling_shortcut_ids()[9].len());
        } else if j == 7 && k == 10 {
            assert(tiling_shortcut_ids()[7].len() != tiling_shortcut_ids()[10].len());
        } else if j == 7 && k == 11 {
            assert(tiling_shortcut_ids()[7].len() != tiling_shortcut_ids()[11].len());
        } else if j == 7 && k == 12 {
            assert(tiling_shortcut_ids()[7].len() != tiling_shortcut_ids()[12].len());
        } else if j == 7 && k == 13 {
            assert(tiling_shortcut_ids()[7].len() != tiling_shortcut_ids()[13].len());
        } else if j == 7 && k == 14 {
            assert(tiling_shortcut_ids()[7].len() != tiling_shortcut_ids()[14].len());
        } else if j == 7 && k == 15 {
            assert(tiling_shortcut_ids()[7].len() != tiling_shortcut_ids()[15].len());
        } else if j == 8 && k == 9 {
            assert(tiling_shortcut_ids()[8].len() != tiling_shortcut_ids()[9].len());
        } else if j == 8 && k == 10 {
            assert(tiling_shortcut_ids()[8].len() != tiling_shortcut_ids()[10].len());
        } else if j == 8 && k == 11 {
            assert(tiling_shortcut_ids()[8].len() != tiling_shortcut_ids()[11].len());
        } else if j == 8 && k == 12 {
            assert(tiling_shortcut_ids()[8].len() != tiling_shortcut_ids()[12].len());
        } else if j == 8 && k == 13 {
            assert(tiling_shortcut_ids()[8].len() != tiling_shortcut_ids()[13].len());
        } else if j == 8 && k == 14 {
            assert(tiling_shortcut_ids()[8].len() != tiling_shortcut_ids()[14].len());
        } else if j == 8 && k == 15 {
            assert(tiling_shortcut_ids()[8].len() != tiling_shortcut_ids()[15].len());
        } else if j == 9 && k == 10 {
            assert(tiling_shortcut_ids()[9].len() != tiling_shortcut_ids()[10].len());
        } else if j == 9 && k == 11 {
            assert(tiling_shortcut_ids()[9].len() != tiling_shortcut_ids()[11].len());
        } else if j == 9 && k == 12 {
            assert(tiling_shortcut_ids()[9].len() != tiling_shortcut_ids()[12].len());
        } else if j == 9 && k == 13 {
            assert(tiling_shortcut_ids()[9].len() != tiling_shortcut_ids()[13].len());
        } else if j == 9 && k == 14 {
            assert(tiling_shortcut_ids()[9].len() != tiling_shortcut_ids()[14].len());
        } else if j == 9 && k == 15 {
            assert(tiling_shortcut_ids()[9].len() != tiling_shortcut_ids()[15].len());
        } else if j == 10 && k == 11 {
            assert(tiling_shortcut_ids()[10].len() != tiling_shortcut_ids()[11].len());
        } else if j == 10 && k == 12 {
            assert(tiling_shortcut_ids()[10].len() != tiling_shortcut_ids()[12].len());
        } else if j == 10 && k == 13 {
            assert(tiling_shortcut_ids()[10].len() != tiling_shortcut_ids()[13].len());
        } else if j == 10 && k == 14 {
            assert(tiling_shortcut_ids()[10].len() != tiling_shortcut_ids()[14].len());
        } else if j == 10 && k == 15 {
            assert(tiling_shortcut_ids()[10].len() != tiling_shortcut_ids()[15].len());
        } else if j == 11 && k == 12 {
            assert(tiling_shortcut_ids()[11].len() != tiling_shortcut_ids()[12].len());
        } else if j == 11 && k == 13 {
            assert(tiling_shortcut_ids()[11].len() != tiling_shortcut_ids()[13].len());
        } else if j == 11 && k == 14 {
            assert(tiling_shortcut_ids()[11].len() != tiling_shortcut_ids()[14].len());
        } else if j == 11 && k == 15 {
            assert(tiling_shortcut_ids()[11].len() != tiling_shortcut_ids()[15].len());
        } else if j == 12 && k == 13 {
            assert(tiling_shortcut_ids()[12].len() != tiling_shortcut_ids()[13].len());
        } else if j == 12 && k == 14 {
            assert(tiling_shortcut_ids()[12].len() != tiling_shortcut_ids()[14].len());
        } else if j == 12 && k == 15 {
            assert(tiling_shortcut_ids()[12][11] != tiling_shortcut_ids()[15][11]);
        } else if j == 13 && k == 14 {
            assert(tiling_shortcut_ids()[13].len() != tiling_shortcut_ids()[14].len());
        } else if j == 13 && k == 15 {
            assert(tiling_shortcut_ids()[13].len() != tiling_shortcut_ids()[15].len());
        } else if j == 14 && k == 15 {
            assert(tiling_shortcut_ids()[14].len() != tiling_shortcut_ids()[15].len());
        }
    }
}

/// Registers the sixteen tiling shortcuts, in the order the shortcut system reads them.
pub fn register_shortcuts(registry: &mut ShortcutRegistry)
    requires
        forall|k: int| 0 <= k < 16 ==> !has_id(old(registry).view(), #[trigger] tiling_shortcut_ids()[k]),
    ensures
        final(registry).view() == old(registry).view() + Seq::new(16, |k: int| tiling_shortcut_view(k)),
        ids_unique(old(registry).view()) ==> ids_unique(final(registry).view()),
{
    proof {
        lemma_tiling_shortcut_ids();
    }
    let ghost start = registry.view();
    let mut k: usize = 0;
    while k < 16
        invariant
            k <= 16,
            registry.view() == start + Seq::new(k as nat, |j: int| tiling_shortcut_view(j)),
            ids_unique(start) ==> ids_unique(registry.view()),
            forall|j: int| 0 <= j < 16 ==> !has_id(start, #[trigger] tiling_shortcut_ids()[j]),
            forall|j: int| 0 <= j < 16 ==> #[trigger] tiling_shortcut_text(j).0 == tiling_shortcut_ids()[j],
            forall|i: int, j: int| 0 <= i < j < 16 ==> tiling_shortcut_ids()[i] != tiling_shortcut_ids()[j],
        decreases 16 - k,
    {
        let (id, description, binding) = tiling_shortcut_entry(k);
        proof {
            let added = Seq::new(k as nat, |j: int| tiling_shortcut_view(j));
            assert(id@ == tiling_shortcut_ids()[k as int]);
            if has_id(registry.view(), id@) {
                let i = choose|i: int| 0 <= i < registry.view().len() && registry.view()[i].id == id@;
                if i < start.len() {
                    assert(start[i].id == id@);
                    assert(has_id(start, tiling_shortcut_ids()[k as int]));
                } else {
                    let j = i - start.len();
                    assert(registry.view()[i] == tiling_shortcut_view(j));
                    assert(tiling_shortcut_text(j).0 == tiling_shortcut_ids()[j]);
                }
            }
        }
        register_builtin(registry, id, "tiling", description, binding, ShortcutTrigger::Press);
        k += 1;
        assert(registry.view() =~= start + Seq::new(k as nat, |j: int| tiling_shortcut_view(j)));
    }
}

} // verus!

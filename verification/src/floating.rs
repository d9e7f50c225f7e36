//! Floating layout: initial centring inside the work area, size clamping, and explicit
//! placement.
//!
//! A window that still looks unplaced (no floating position and a scene origin at `(0, 0)`) is
//! centred inside the work area of its output; a window the layout placed follows work-area
//! changes until the user or client places it explicitly.

#[allow(unused_imports)]
use vstd::prelude::*;
use crate::geometry::{
    clamp_i32, clamp_isize, initialize_scene_geometry_from_surface, isize_saturating_add,
    output_for_workspace, project_scene_geometry, projected, resolve_output_state_for_workspace,
    saturating_isize_to_i32, scene_from_surface,
};
use crate::model::{
    OutputProperties, OutputRecord, OutputViewport, SurfaceGeometry, WindowLayout, WindowMode,
    WindowSceneGeometry, WorkArea,
};
use crate::window_control::{FloatingPosition, WindowPlacement, WindowPosition};

verus! {

/// Floating layout strategy.
#[derive(Clone, Copy, Debug, PartialEq, Eq, Structural)]
pub struct FloatingLayout;

/// Smallest floating window side.
pub const MIN_FLOATING_WINDOW_SIZE: u32 = 32;

/// Origin that centres an extent inside a span: the viewport origin plus the span's origin plus
/// half of the spare room (none when the extent does not fit), saturating.
pub open spec fn centred(viewport_origin: isize, span_origin: i32, span: u32, extent: u32) -> isize {
    let half = if span > extent { (span - extent) / 2 } else { 0 };
    clamp_isize(clamp_isize(viewport_origin + span_origin) + half) as isize
}

fn centre(viewport_origin: isize, span_origin: i32, span: u32, extent: u32) -> (origin: isize)
    ensures
        origin == centred(viewport_origin, span_origin, span, extent),
{
    let half: u32 = if span > extent { (span - extent) / 2 } else { 0 };
    isize_saturating_add(isize_saturating_add(viewport_origin, span_origin as isize), half as isize)
}

/// Horizontal centre-align within `work_area`.
pub fn centre_x(work_area: &WorkArea, viewport_origin_x: isize, width: u32) -> (x: isize)
    ensures
        x == centred(viewport_origin_x, work_area.x, work_area.width, width),
{
    centre(viewport_origin_x, work_area.x, work_area.width, width)
}

/// Vertical centre-align within `work_area`.
pub fn centre_y(work_area: &WorkArea, viewport_origin_y: isize, height: u32) -> (y: isize)
    ensures
        y == centred(viewport_origin_y, work_area.y, work_area.height, height),
{
    centre(viewport_origin_y, work_area.y, work_area.height, height)
}

/// Placement area: the full output while the work area is still at its startup fallback (at
/// the origin and smaller than the output), else the work area.
pub open spec fn placement_area(work_area: WorkArea, output: Option<OutputProperties>) -> WorkArea {
    match output {
        Some(output) => if work_area.x == 0 && work_area.y == 0 && (work_area.width < output.width
            || work_area.height < output.height) {
            WorkArea {
                x: 0,
                y: 0,
                width: if output.width == 0 { 1 } else { output.width },
                height: if output.height == 0 { 1 } else { output.height },
            }
        } else {
            work_area
        },
        None => work_area,
    }
}

/// Uses the full output rect as a temporary placement area while the real work area is still at
/// its startup fallback value.
pub fn placement_work_area(work_area: &WorkArea, output: Option<OutputProperties>) -> (area: WorkArea)
    ensures
        area == placement_area(*work_area, output),
{
    let output = match output {
        Some(output) => output,
        None => return *work_area,
    };
    if work_area.x == 0 && work_area.y == 0 && (work_area.width < output.width || work_area.height
        < output.height) {
        WorkArea {
            x: 0,
            y: 0,
            width: if output.width == 0 { 1 } else { output.width },
            height: if output.height == 0 { 1 } else { output.height },
        }
    } else {
        *work_area
    }
}

/// A window still looks unplaced: it has no floating position and its origin is `(0, 0)`.
pub open spec fn looks_unplaced(placement: WindowPlacement, geometry: WindowSceneGeometry) -> bool {
    placement.floating_position is None && geometry.x == 0 && geometry.y == 0
}

/// Identifies windows that still look "unplaced" and should be auto-centred when they first
/// become visible.
pub fn should_auto_place_floating_window(
    placement: &WindowPlacement,
    geometry: &WindowSceneGeometry,
) -> (result: bool)
    ensures
        result == looks_unplaced(*placement, *geometry),
{
    placement.floating_position.is_none() && geometry.x == 0 && geometry.y == 0
}

/// Whether the layout (re)centres a window: an unplaced window, or one the layout placed when
/// the work area changed.
pub open spec fn repositions(
    placement: WindowPlacement,
    geometry: WindowSceneGeometry,
    work_area_changed: bool,
) -> bool {
    match placement.floating_position {
        None => looks_unplaced(placement, geometry),
        Some(FloatingPosition::Auto(_)) => work_area_changed,
        Some(FloatingPosition::Explicit(_)) => false,
    }
}

/// Re-centres unpositioned floating windows, and also lets unpositioned windows follow work-area
/// changes until the user explicitly places them.
pub fn should_reposition_floating_window(
    placement: &WindowPlacement,
    geometry: &WindowSceneGeometry,
    work_area_changed: bool,
) -> (result: bool)
    ensures
        result == repositions(*placement, *geometry, work_area_changed),
{
    match placement.floating_position {
        None => should_auto_place_floating_window(placement, geometry),
        Some(FloatingPosition::Auto(_)) => work_area_changed,
        Some(FloatingPosition::Explicit(_)) => false,
    }
}

/// A window as the floating layout sees it.
#[derive(Clone, Copy, Debug, PartialEq, Eq, Structural)]
pub struct FloatingWindow {
    pub layout: WindowLayout,
    pub mode: WindowMode,
    /// Whether a buffer exists, and if so whether it is attached.
    pub buffer_attached: Option<bool>,
    pub client_driven_resize: bool,
    pub geometry: SurfaceGeometry,
    pub scene_geometry: WindowSceneGeometry,
    pub placement: WindowPlacement,
    pub workspace: Option<u32>,
}

/// `value` clamped into `[low, high]` (with `low <= high`).
pub open spec fn clamp_u32(value: u32, low: u32, high: u32) -> u32 {
    if value < low {
        low
    } else if value > high {
        high
    } else {
        value
    }
}

/// `max(value, MIN_FLOATING_WINDOW_SIZE)`.
pub open spec fn at_least_min(value: u32) -> u32 {
    if value < MIN_FLOATING_WINDOW_SIZE {
        MIN_FLOATING_WINDOW_SIZE
    } else {
        value
    }
}

/// Whether the floating layout handles a window this frame: floating, not maximized /
/// fullscreen / hidden, with a buffer that is attached (or explicit placement, or a work area
/// that is not at the origin), and a non-empty surface.
pub open spec fn floating_handles(window: FloatingWindow, work_area: WorkArea) -> bool {
    &&& window.layout == WindowLayout::Floating
    &&& window.mode == WindowMode::Normal
    &&& window.buffer_attached is Some
    &&& (window.buffer_attached == Some(true) || work_area.x != 0 || work_area.y != 0
        || window.placement.spec_has_explicit_placement())
    &&& window.geometry.width != 0
    &&& window.geometry.height != 0
}

/// Floating geometry of a handled window: the scene rectangle is seeded from the surface when
/// empty, takes the floating size (at least the minimum), is clamped to the work area unless a
/// client-driven window was placed explicitly (then only to the minimum), is (re)centred when it
/// looks unplaced or follows a work-area change, and takes the resolved floating position; the
/// surface rectangle is its projection through the output's viewport (or its clamped origin
/// without an output).
pub open spec fn floating_window_step(
    window: FloatingWindow,
    area: WorkArea,
    viewport: Option<OutputViewport>,
    work_area_changed: bool,
) -> FloatingWindow {
    let origin = match viewport {
        Some(viewport) => viewport,
        None => OutputViewport { origin_x: 0, origin_y: 0 },
    };
    let explicit = window.placement.spec_has_explicit_placement();
    let seeded = if window.scene_geometry.width != 0 || window.scene_geometry.height != 0 {
        window.scene_geometry
    } else {
        scene_from_surface(window.geometry, origin)
    };
    let sized = match window.placement.floating_size {
        Some(size) => WindowSceneGeometry {
            width: at_least_min(size.width),
            height: at_least_min(size.height),
            ..seeded
        },
        None => seeded,
    };
    let clamped = if window.client_driven_resize && explicit {
        WindowSceneGeometry {
            width: at_least_min(sized.width),
            height: at_least_min(sized.height),
            ..sized
        }
    } else {
        WindowSceneGeometry {
            width: clamp_u32(sized.width, MIN_FLOATING_WINDOW_SIZE, at_least_min(area.width)),
            height: clamp_u32(sized.height, MIN_FLOATING_WINDOW_SIZE, at_least_min(area.height)),
            ..sized
        }
    };
    let placement = if repositions(window.placement, clamped, work_area_changed) {
        WindowPlacement {
            floating_position: Some(
                FloatingPosition::Auto(
                    WindowPosition {
                        x: centred(origin.origin_x, area.x, area.width, clamped.width),
                        y: centred(origin.origin_y, area.y, area.height, clamped.height),
                    },
                ),
            ),
            ..window.placement
        }
    } else {
        window.placement
    };
    let placed = match placement.resolved_position() {
        Some(position) => WindowSceneGeometry { x: position.x, y: position.y, ..clamped },
        None => clamped,
    };
    FloatingWindow {
        scene_geometry: placed,
        placement,
        geometry: match viewport {
            Some(viewport) => projected(placed, viewport),
            None => SurfaceGeometry {
                x: clamp_i32(placed.x as int) as i32,
                y: clamp_i32(placed.y as int) as i32,
                width: placed.width,
                height: placed.height,
            },
        },
        ..window
    }
}

/// Places one handled floating window; see [`floating_window_step`].
pub fn place_floating_window(
    window: &mut FloatingWindow,
    area: WorkArea,
    viewport: Option<OutputViewport>,
    work_area_changed: bool,
)
    ensures
        *final(window) == floating_window_step(*old(window), area, viewport, work_area_changed),
{
    let origin = match viewport {
        Some(viewport) => viewport,
        None => OutputViewport { origin_x: 0, origin_y: 0 },
    };
    let explicit = window.placement.has_explicit_placement();
    initialize_scene_geometry_from_surface(&mut window.scene_geometry, &window.geometry, &origin);
    if let Some(size) = window.placement.floating_size {
        window.scene_geometry.width = if size.width < MIN_FLOATING_WINDOW_SIZE {
            MIN_FLOATING_WINDOW_SIZE
        } else {
            size.width
        };
        window.scene_geometry.height = if size.height < MIN_FLOATING_WINDOW_SIZE {
            MIN_FLOATING_WINDOW_SIZE
        } else {
            size.height
        };
    }
    if window.client_driven_resize && explicit {
        if window.scene_geometry.width < MIN_FLOATING_WINDOW_SIZE {
            window.scene_geometry.width = MIN_FLOATING_WINDOW_SIZE;
        }
        if window.scene_geometry.height < MIN_FLOATING_WINDOW_SIZE {
            window.scene_geometry.height = MIN_FLOATING_WINDOW_SIZE;
        }
    } else {
        let max_width = if area.width < MIN_FLOATING_WINDOW_SIZE {
            MIN_FLOATING_WINDOW_SIZE
        } else {
            area.width
        };
        let max_height = if area.height < MIN_FLOATING_WINDOW_SIZE {
            MIN_FLOATING_WINDOW_SIZE
        } else {
            area.height
        };
        let width = window.scene_geometry.width;
        window.scene_geometry.width = if width < MIN_FLOATING_WINDOW_SIZE {
            MIN_FLOATING_WINDOW_SIZE
        } else if width > max_width {
            max_width
        } else {
            width
        };
        let height = window.scene_geometry.height;
        window.scene_geometry.height = if height < MIN_FLOATING_WINDOW_SIZE {
            MIN_FLOATING_WINDOW_SIZE
        } else if height > max_height {
            max_height
        } else {
            height
        };
    }
    if should_reposition_floating_window(&window.placement, &window.scene_geometry, work_area_changed) {
        let x = centre_x(&area, origin.origin_x, window.scene_geometry.width);
        let y = centre_y(&area, origin.origin_y, window.scene_geometry.height);
        window.placement.set_auto_position(WindowPosition { x, y });
    }
    if let Some(position) = window.placement.resolved_floating_position() {
        window.scene_geometry.x = position.x;
        window.scene_geometry.y = position.y;
    }
    window.geometry = match viewport {
        Some(viewport) => project_scene_geometry(&window.scene_geometry, &viewport),
        None => SurfaceGeometry {
            x: saturating_isize_to_i32(window.scene_geometry.x),
            y: saturating_isize_to_i32(window.scene_geometry.y),
            width: window.scene_geometry.width,
            height: window.scene_geometry.height,
        },
    };
}

/// Output of a window's workspace (the output showing it, else the primary, else the first).
pub open spec fn window_output(
    outputs: Seq<OutputRecord>,
    workspace: Option<u32>,
    primary_output: Option<u64>,
) -> Option<int> {
    output_for_workspace(outputs, workspace, primary_output)
}

/// Global placement area: the work area, or the full primary (else first) output while the work
/// area is at its startup fallback.
pub open spec fn global_placement_area(
    outputs: Seq<OutputRecord>,
    primary_output: Option<u64>,
    work_area: WorkArea,
) -> WorkArea {
    placement_area(
        work_area,
        match output_for_workspace(outputs, None, primary_output) {
            Some(o) => Some(outputs[o].properties),
            None => None,
        },
    )
}

/// A window after the floating layout: placed when the layout handles it (in the placement area
/// of its output, seen through that output's viewport), else unchanged.
pub open spec fn floating_result(
    window: FloatingWindow,
    outputs: Seq<OutputRecord>,
    primary_output: Option<u64>,
    work_area: WorkArea,
    work_area_changed: bool,
) -> FloatingWindow {
    if floating_handles(window, work_area) {
        let (area, viewport) = match window_output(outputs, window.workspace, primary_output) {
            Some(o) => (
                placement_area(outputs[o].work_area, Some(outputs[o].properties)),
                Some(outputs[o].viewport),
            ),
            None => (global_placement_area(outputs, primary_output, work_area), None),
        };
        floating_window_step(window, area, viewport, work_area_changed)
    } else {
        window
    }
}

/// Placement area of a workspace: the placement area of its output (the output showing it,
/// else the primary, else the first), else the work area.
pub fn placement_area_for_workspace(
    outputs: &Vec<OutputRecord>,
    workspace: Option<u32>,
    primary_output: Option<u64>,
    work_area: WorkArea,
) -> (area: WorkArea)
    ensures
        area == match window_output(outputs@, workspace, primary_output) {
            Some(o) => placement_area(outputs@[o].work_area, Some(outputs@[o].properties)),
            None => work_area,
        },
{
    match resolve_output_state_for_workspace(outputs, workspace, primary_output) {
        Some(o) => placement_work_area(&outputs[o].work_area, Some(outputs[o].properties)),
        None => work_area,
    }
}

/// Runs the floating layout over all windows; the work area counts as changed when the global
/// placement area differs from the previous run's.
pub fn floating_layout_system(
    windows: &mut Vec<FloatingWindow>,
    outputs: &Vec<OutputRecord>,
    primary_output: Option<u64>,
    work_area: WorkArea,
    previous_area: &mut Option<WorkArea>,
)
    ensures
        ({
            let area = global_placement_area(outputs@, primary_output, work_area);
            let changed = match *old(previous_area) {
                Some(previous) => previous != area,
                None => false,
            };
            &&& final(windows)@.len() == old(windows)@.len()
            &&& forall|i: int|
                0 <= i < old(windows)@.len() ==> final(windows)@[i] == floating_result(
                    #[trigger] old(windows)@[i],
                    outputs@,
                    primary_output,
                    work_area,
                    changed,
                )
            &&& *final(previous_area) == Some(area)
        }),
{
    let global_output = match resolve_output_state_for_workspace(outputs, None, primary_output) {
        Some(o) => Some(outputs[o].properties),
        None => None,
    };
    let area = placement_work_area(&work_area, global_output);
    let changed = match *previous_area {
        Some(previous) => previous != area,
        None => false,
    };
    let ghost before = windows@;
    let mut i: usize = 0;
    while i < windows.len()
        invariant
            i <= windows@.len(),
            windows@.len() == before.len(),
            area == global_placement_area(outputs@, primary_output, work_area),
            forall|j: int|
                0 <= j < i ==> windows@[j] == floating_result(
                    #[trigger] before[j],
                    outputs@,
                    primary_output,
                    work_area,
                    changed,
                ),
            forall|j: int| i <= j < windows@.len() ==> windows@[j] == before[j],
        decreases windows.len() - i,
    {
        let mut window = windows[i];
        let handled = window.layout == WindowLayout::Floating && window.mode == WindowMode::Normal
            && match window.buffer_attached {
            Some(attached) => attached || work_area.x != 0 || work_area.y != 0
                || window.placement.has_explicit_placement(),
            None => false,
        } && window.geometry.width != 0 && window.geometry.height != 0;
        if handled {
            let (window_area, viewport) = match resolve_output_state_for_workspace(
                outputs,
                window.workspace,
                primary_output,
            ) {
                Some(o) => (
                    placement_work_area(&outputs[o].work_area, Some(outputs[o].properties)),
                    Some(outputs[o].viewport),
                ),
                None => (area, None),
            };
            place_floating_window(&mut window, window_area, viewport, changed);
            windows.set(i, window);
        }
        i += 1;
    }
    *previous_area = Some(area);
}

/// The floating layout never moves a window that was placed explicitly: its scene origin is the
/// explicit position and its placement is unchanged.
pub proof fn law_explicit_placement_is_kept(
    window: FloatingWindow,
    area: WorkArea,
    viewport: Option<OutputViewport>,
    work_area_changed: bool,
    position: WindowPosition,
)
    requires
        window.placement.floating_position == Some(FloatingPosition::Explicit(position)),
    ensures
        ({
            let after = floating_window_step(window, area, viewport, work_area_changed);
            &&& after.scene_geometry.x == position.x
            &&& after.scene_geometry.y == position.y
            &&& after.placement == window.placement
        }),
{
}

/// An unplaced window (no floating position, scene origin at `(0, 0)`) that fits its area is
/// centred in it: equal spare room on both sides, up to one pixel.
pub proof fn law_unplaced_window_is_centred(
    window: FloatingWindow,
    area: WorkArea,
    work_area_changed: bool,
)
    requires
        window.placement.floating_position is None,
        window.placement.floating_size is None,
        window.scene_geometry.x == 0,
        window.scene_geometry.y == 0,
        window.scene_geometry.width != 0,
        !window.client_driven_resize,
        MIN_FLOATING_WINDOW_SIZE <= window.scene_geometry.width <= area.width,
        MIN_FLOATING_WINDOW_SIZE <= window.scene_geometry.height <= area.height,
        area.x + area.width <= i32::MAX,
    ensures
        ({
            let after = floating_window_step(window, area, None, work_area_changed);
            let left = after.scene_geometry.x - area.x;
            let right = (area.x + area.width) - (after.scene_geometry.x + after.scene_geometry.width);
            &&& after.scene_geometry.width == window.scene_geometry.width
            &&& 0 <= right - left <= 1
            &&& after.placement.floating_position is Some
        }),
{
    let after = floating_window_step(window, area, None, work_area_changed);
    assert(repositions(window.placement, window.scene_geometry, work_area_changed));
    let half: int = (area.width - window.scene_geometry.width) / 2;
    assert(after.scene_geometry.x == centred(0, area.x, area.width, window.scene_geometry.width));
    assert(centred(0, area.x, area.width, window.scene_geometry.width) == area.x + half);
}

} // verus!

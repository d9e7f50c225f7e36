//! Interactive move/resize grabs of floating windows: the geometry a pointer delta implies, and
//! how each grab tick updates the window.
//!
//! Pointer positions are fractional; the caller rounds the pointer's offset from where the grab
//! began to whole pixels and hands that delta in.

#[allow(unused_imports)]
use vstd::prelude::*;
use crate::configure::{GrabStart, ResizeEdges, WindowGrabMode};
use crate::geometry::{clamp_i32, clamp_isize, isize_saturating_add, project_scene_geometry, projected, saturating_isize_to_i32};
use crate::layer::{u32_as_i32, wrap_i32};
use crate::model::{OutputRecord, OutputViewport, SurfaceGeometry, WindowLayout, WindowSceneGeometry};
use crate::geometry::{output_for_workspace, resolve_output_state_for_workspace};
use crate::search::{first_index, first_index_from, lemma_first_index_bounds};
use crate::window_control::{FloatingPosition, WindowPlacement, WindowPosition, WindowSize};

verus! {

/// Smallest width and height an interactive resize leaves.
pub const MIN_WINDOW_SIZE: i32 = 32;

/// Left/right (or top/bottom) part of a resize: the new origin and extent along one axis, in
/// `i32` pixel arithmetic.
pub open spec fn resized_axis(
    origin: isize,
    extent: int,
    delta: int,
    near: bool,
    far: bool,
) -> (int, int) {
    let (origin1, extent1) = if near {
        let desired = extent - delta;
        if desired < MIN_WINDOW_SIZE {
            (clamp_isize(origin + (extent - MIN_WINDOW_SIZE)), MIN_WINDOW_SIZE as int)
        } else {
            (clamp_isize(origin + delta), desired)
        }
    } else {
        (origin as int, extent)
    };
    let extent2 = if far {
        if extent1 + delta < MIN_WINDOW_SIZE {
            MIN_WINDOW_SIZE as int
        } else {
            extent1 + delta
        }
    } else {
        extent1
    };
    (origin1, if extent2 < MIN_WINDOW_SIZE { MIN_WINDOW_SIZE as int } else { extent2 })
}

/// Whether one axis of a resize stays within `i32` arithmetic.
pub open spec fn axis_fits(extent: int, delta: int, near: bool, far: bool) -> bool {
    let desired = extent - delta;
    let extent1 = if near {
        if desired < MIN_WINDOW_SIZE {
            MIN_WINDOW_SIZE as int
        } else {
            desired
        }
    } else {
        extent
    };
    &&& near ==> i32::MIN <= desired <= i32::MAX
    &&& near ==> i32::MIN <= extent - MIN_WINDOW_SIZE <= i32::MAX
    &&& far ==> i32::MIN <= extent1 + delta <= i32::MAX
}

/// Whether a resize stays within `i32` arithmetic (the start size is read as `i32`).
pub open spec fn resize_fits(
    start: WindowSceneGeometry,
    edges: ResizeEdges,
    delta_x: i32,
    delta_y: i32,
) -> bool {
    &&& axis_fits(wrap_i32(start.width as int), delta_x as int, edges.spec_has_left(), edges.spec_has_right())
    &&& axis_fits(wrap_i32(start.height as int), delta_y as int, edges.spec_has_top(), edges.spec_has_bottom())
}

/// Geometry of a resize from `start` by a pointer delta: a dragged left/top edge moves the origin
/// and shrinks the extent (stopping at the minimum size with the far edge fixed), a dragged
/// right/bottom edge grows the extent; every extent is at least the minimum size.
pub open spec fn resized(
    start: WindowSceneGeometry,
    edges: ResizeEdges,
    delta_x: i32,
    delta_y: i32,
) -> WindowSceneGeometry {
    let (x, width) = resized_axis(
        start.x,
        wrap_i32(start.width as int),
        delta_x as int,
        edges.spec_has_left(),
        edges.spec_has_right(),
    );
    let (y, height) = resized_axis(
        start.y,
        wrap_i32(start.height as int),
        delta_y as int,
        edges.spec_has_top(),
        edges.spec_has_bottom(),
    );
    WindowSceneGeometry { x: x as isize, y: y as isize, width: width as u32, height: height as u32 }
}

fn resize_axis(origin: isize, extent: i32, delta: i32, near: bool, far: bool) -> (result: (isize, i32))
    requires
        axis_fits(extent as int, delta as int, near, far),
    ensures
        (result.0 as int, result.1 as int) == resized_axis(origin, extent as int, delta as int, near, far),
{
    let mut origin = origin;
    let mut extent = extent;
    if near {
        let desired = extent - delta;
        if desired < MIN_WINDOW_SIZE {
            origin = isize_saturating_add(origin, (extent - MIN_WINDOW_SIZE) as isize);
            extent = MIN_WINDOW_SIZE;
        } else {
            origin = isize_saturating_add(origin, delta as isize);
            extent = desired;
        }
    }
    if far {
        let grown = extent + delta;
        extent = if grown < MIN_WINDOW_SIZE { MIN_WINDOW_SIZE } else { grown };
    }
    (origin, if extent < MIN_WINDOW_SIZE { MIN_WINDOW_SIZE } else { extent })
}

/// Applies edge-specific resize semantics while enforcing a minimum window size; see [`resized`].
pub fn resize_geometry(
    start_geometry: &WindowSceneGeometry,
    edges: ResizeEdges,
    delta_x: i32,
    delta_y: i32,
) -> (geometry: WindowSceneGeometry)
    requires
        resize_fits(*start_geometry, edges, delta_x, delta_y),
    ensures
        geometry == resized(*start_geometry, edges, delta_x, delta_y),
{
    let (x, width) = resize_axis(
        start_geometry.x,
        u32_as_i32(start_geometry.width),
        delta_x,
        edges.has_left(),
        edges.has_right(),
    );
    let (y, height) = resize_axis(
        start_geometry.y,
        u32_as_i32(start_geometry.height),
        delta_y,
        edges.has_top(),
        edges.has_bottom(),
    );
    WindowSceneGeometry { x, y, width: width as u32, height: height as u32 }
}

/// Geometry a grab implies for a rounded pointer delta: a move shifts the start origin
/// (saturating) and keeps the current size (else the start size); a resize follows
/// [`resized`].
pub open spec fn grab_geometry(
    grab: GrabStart,
    delta_x: i32,
    delta_y: i32,
    current: Option<WindowSceneGeometry>,
) -> WindowSceneGeometry {
    match grab.mode {
        WindowGrabMode::Move => WindowSceneGeometry {
            x: clamp_isize(grab.start_scene_geometry.x + delta_x) as isize,
            y: clamp_isize(grab.start_scene_geometry.y + delta_y) as isize,
            width: match current {
                Some(geometry) => geometry.width,
                None => grab.start_scene_geometry.width,
            },
            height: match current {
                Some(geometry) => geometry.height,
                None => grab.start_scene_geometry.height,
            },
        },
        WindowGrabMode::Resize { edges } => resized(grab.start_scene_geometry, edges, delta_x, delta_y),
    }
}

/// Whether a grab's geometry stays within `i32` arithmetic.
pub open spec fn grab_fits(grab: GrabStart, delta_x: i32, delta_y: i32) -> bool {
    match grab.mode {
        WindowGrabMode::Move => true,
        WindowGrabMode::Resize { edges } => resize_fits(grab.start_scene_geometry, edges, delta_x, delta_y),
    }
}

/// Computes the geometry implied by a rounded pointer delta for an active grab; see
/// [`grab_geometry`].
pub fn geometry_for_pointer(
    grab: &GrabStart,
    delta_x: i32,
    delta_y: i32,
    current: Option<WindowSceneGeometry>,
) -> (geometry: WindowSceneGeometry)
    requires
        grab_fits(*grab, delta_x, delta_y),
    ensures
        geometry == grab_geometry(*grab, delta_x, delta_y, current),
{
    match grab.mode {
        WindowGrabMode::Move => WindowSceneGeometry {
            x: isize_saturating_add(grab.start_scene_geometry.x, delta_x as isize),
            y: isize_saturating_add(grab.start_scene_geometry.y, delta_y as isize),
            width: match current {
                Some(geometry) => geometry.width,
                None => grab.start_scene_geometry.width,
            },
            height: match current {
                Some(geometry) => geometry.height,
                None => grab.start_scene_geometry.height,
            },
        },
        WindowGrabMode::Resize { edges } => resize_geometry(&grab.start_scene_geometry, edges, delta_x, delta_y),
    }
}

/// Dragging the left edge keeps the right edge where it was (unless the origin saturates), keeps
/// the window at least the minimum width, and leaves the vertical axis alone.
pub proof fn law_left_resize_keeps_right_edge(
    start: WindowSceneGeometry,
    delta_x: i32,
    delta_y: i32,
)
    requires
        resize_fits(start, ResizeEdges::Left, delta_x, delta_y),
        start.width <= i32::MAX,
        start.height <= i32::MAX,
        isize::MIN <= start.x + delta_x <= isize::MAX,
        isize::MIN <= start.x + start.width - MIN_WINDOW_SIZE <= isize::MAX,
    ensures
        ({
            let after = resized(start, ResizeEdges::Left, delta_x, delta_y);
            &&& after.x + after.width == start.x + start.width
            &&& after.width >= MIN_WINDOW_SIZE
            &&& after.height == (if start.height < MIN_WINDOW_SIZE { MIN_WINDOW_SIZE as u32 } else { start.height })
            &&& after.y == start.y
        }),
{
}

/// Dragging the top edge keeps the bottom edge where it was (unless the origin saturates), keeps
/// the window at least the minimum height, and leaves the horizontal axis alone; with no edge
/// dragged the window keeps its origin and size (raised to the minimum size).
pub proof fn law_top_resize_keeps_bottom_edge(
    start: WindowSceneGeometry,
    delta_x: i32,
    delta_y: i32,
)
    requires
        start.width <= i32::MAX,
        start.height <= i32::MAX,
    ensures
        ({
            let after = resized(start, ResizeEdges::Top, delta_x, delta_y);
            (resize_fits(start, ResizeEdges::Top, delta_x, delta_y)
                && isize::MIN <= start.y + delta_y <= isize::MAX
                && isize::MIN <= start.y + start.height - MIN_WINDOW_SIZE <= isize::MAX) ==> {
                &&& after.y + after.height == start.y + start.height
                &&& after.height >= MIN_WINDOW_SIZE
                &&& after.width == (if start.width < MIN_WINDOW_SIZE { MIN_WINDOW_SIZE as u32 } else { start.width })
                &&& after.x == start.x
            }
        }),
        ({
            let still = resized(start, ResizeEdges::NoEdge, delta_x, delta_y);
            &&& still.x == start.x
            &&& still.y == start.y
            &&& still.width == (if start.width < MIN_WINDOW_SIZE { MIN_WINDOW_SIZE as u32 } else { start.width })
            &&& still.height == (if start.height < MIN_WINDOW_SIZE { MIN_WINDOW_SIZE as u32 } else { start.height })
        }),
{
}

/// Dragging the right (bottom) edge by a delta keeps the left (top) edge where it was and makes
/// the width (height) the start extent plus the delta, but never less than the minimum size:
/// inward drags shrink the window as outward drags grow it.
pub proof fn law_far_edge_resize_follows_pointer(
    start: WindowSceneGeometry,
    edges: ResizeEdges,
    delta_x: i32,
    delta_y: i32,
)
    requires
        resize_fits(start, edges, delta_x, delta_y),
        start.width <= i32::MAX,
        start.height <= i32::MAX,
    ensures
        ({
            let after = resized(start, edges, delta_x, delta_y);
            &&& (edges.spec_has_right() ==> after.x == start.x && after.width == (if start.width + delta_x
                < MIN_WINDOW_SIZE {
                MIN_WINDOW_SIZE as int
            } else {
                start.width + delta_x
            }))
            &&& (edges.spec_has_bottom() ==> after.y == start.y && after.height == (if start.height
                + delta_y < MIN_WINDOW_SIZE {
                MIN_WINDOW_SIZE as int
            } else {
                start.height + delta_y
            }))
        }),
{
}

/// A client-driven resize that waits for the client to commit the requested size.
#[derive(Clone, Copy, Debug, PartialEq, Eq, Structural)]
pub struct PendingInteractiveResize {
    pub requested_geometry: WindowSceneGeometry,
    pub inflight_geometry: Option<WindowSceneGeometry>,
    pub edges: ResizeEdges,
}

/// A window as the grab tick sees it.
#[derive(Clone, Copy, Debug, PartialEq, Eq, Structural)]
pub struct GrabWindow {
    pub surface_id: u64,
    pub layout: WindowLayout,
    /// Whether the client sizes itself (native XDG resizes are requested, not imposed).
    pub client_driven_resize: bool,
    pub scene_geometry: WindowSceneGeometry,
    pub geometry: SurfaceGeometry,
    pub placement: WindowPlacement,
    pub pending_resize: Option<PendingInteractiveResize>,
    pub workspace: Option<u32>,
}

/// Output-local geometry of a scene rectangle: projected through the viewport, or its origin
/// clamped into `i32` without one.
pub open spec fn local_geometry(scene: WindowSceneGeometry, viewport: Option<OutputViewport>) -> SurfaceGeometry {
    match viewport {
        Some(viewport) => projected(scene, viewport),
        None => SurfaceGeometry {
            x: clamp_i32(scene.x as int) as i32,
            y: clamp_i32(scene.y as int) as i32,
            width: scene.width,
            height: scene.height,
        },
    }
}

/// Outcome of one grab tick.
pub struct GrabTick {
    pub window: GrabWindow,
    pub grab: Option<GrabStart>,
    pub focus: Option<u64>,
    /// Stacking workspace and surface raised.
    pub raise: Option<(u32, u64)>,
    /// Surface moved to a new origin.
    pub moved: Option<(u64, i64, i64)>,
}

/// One grab tick on the grabbed window (when it is still floating): the grab's geometry is
/// either requested from a client-driven window during a resize, or applied (scene geometry,
/// local geometry, explicit position and floating size); the window is focused and raised; a
/// button release ends the grab. A window that is no longer floating ends the grab untouched.
pub open spec fn grab_tick(
    grab: GrabStart,
    window: GrabWindow,
    delta_x: i32,
    delta_y: i32,
    viewport: Option<OutputViewport>,
    released: bool,
    unassigned_stack: u32,
    focus: Option<u64>,
) -> GrabTick {
    if window.layout != WindowLayout::Floating {
        GrabTick { window, grab: None, focus, raise: None, moved: None }
    } else {
        let next = grab_geometry(grab, delta_x, delta_y, Some(window.scene_geometry));
        let moved = window.scene_geometry.x != next.x || window.scene_geometry.y != next.y;
        let resized = window.scene_geometry.width != next.width
            || window.scene_geometry.height != next.height;
        let deferred = grab.mode is Resize && resized && window.client_driven_resize;
        let updated = if deferred {
            GrabWindow {
                pending_resize: Some(
                    PendingInteractiveResize {
                        requested_geometry: next,
                        inflight_geometry: match window.pending_resize {
                            Some(pending) => pending.inflight_geometry,
                            None => None,
                        },
                        edges: grab.mode->edges,
                    },
                ),
                ..window
            }
        } else if moved || resized {
            GrabWindow {
                scene_geometry: next,
                geometry: local_geometry(next, viewport),
                placement: WindowPlacement {
                    floating_position: Some(
                        FloatingPosition::Explicit(WindowPosition { x: next.x, y: next.y }),
                    ),
                    floating_size: if resized {
                        Some(WindowSize { width: next.width, height: next.height })
                    } else {
                        window.placement.floating_size
                    },
                },
                ..window
            }
        } else {
            window
        };
        GrabTick {
            window: updated,
            grab: if released {
                None
            } else {
                Some(grab)
            },
            focus: Some(grab.surface_id),
            raise: Some(
                (
                    match window.workspace {
                        Some(id) => id,
                        None => unassigned_stack,
                    },
                    grab.surface_id,
                ),
            ),
            moved: if !deferred && moved {
                Some((grab.surface_id, next.x as i64, next.y as i64))
            } else {
                None
            },
        }
    }
}

/// Grabbed window with a given surface id.
pub open spec fn grab_window_with(surface_id: u64) -> spec_fn(GrabWindow) -> bool {
    |window: GrabWindow| window.surface_id == surface_id
}

fn find_grab_window(windows: &Vec<GrabWindow>, surface_id: u64) -> (index: Option<usize>)
    ensures
        match index {
            Some(i) => first_index(windows@, grab_window_with(surface_id)) == Some(i as int),
            None => first_index(windows@, grab_window_with(surface_id)) is None,
        },
{
    let mut i: usize = 0;
    while i < windows.len()
        invariant
            i <= windows@.len(),
            first_index(windows@, grab_window_with(surface_id)) == first_index_from(
                windows@,
                grab_window_with(surface_id),
                i as int,
            ),
        decreases windows.len() - i,
    {
        if windows[i].surface_id == surface_id {
            return Some(i);
        }
        i += 1;
    }
    None
}

/// Advances the active grab by one tick; see [`grab_tick`]. Without a grab nothing happens; a
/// grab whose window is gone ends. Returns the raise and the move to report.
pub fn window_grab_system(
    grab: &mut Option<GrabStart>,
    windows: &mut Vec<GrabWindow>,
    delta_x: i32,
    delta_y: i32,
    outputs: &Vec<OutputRecord>,
    primary_output: Option<u64>,
    released: bool,
    unassigned_stack: u32,
    focus: &mut Option<u64>,
) -> (report: (Option<(u32, u64)>, Option<(u64, i64, i64)>))
    requires
        *old(grab) matches Some(g) ==> grab_fits(g, delta_x, delta_y),
    ensures
        match *old(grab) {
            None => *final(grab) is None && final(windows)@ == old(windows)@ && *final(focus)
                == *old(focus) && report == (None::<(u32, u64)>, None::<(u64, i64, i64)>),
            Some(g) => match first_index(old(windows)@, grab_window_with(g.surface_id)) {
                None => *final(grab) is None && final(windows)@ == old(windows)@ && *final(focus)
                    == *old(focus) && report == (None::<(u32, u64)>, None::<(u64, i64, i64)>),
                Some(i) => {
                    let window = old(windows)@[i];
                    let workspace = match window.workspace {
                        Some(id) => id,
                        None => unassigned_stack,
                    };
                    let viewport = match output_for_workspace(outputs@, Some(workspace), primary_output) {
                        Some(o) => Some(outputs@[o].viewport),
                        None => None,
                    };
                    let tick = grab_tick(g, window, delta_x, delta_y, viewport, released, unassigned_stack, *old(focus));
                    &&& *final(grab) == tick.grab
                    &&& final(windows)@ == old(windows)@.update(i, tick.window)
                    &&& *final(focus) == tick.focus
                    &&& report == (tick.raise, tick.moved)
                },
            },
        },
{
    let g = match *grab {
        Some(g) => g,
        None => return (None, None),
    };
    proof {
        lemma_first_index_bounds(windows@, grab_window_with(g.surface_id), 0);
    }
    let found = find_grab_window(windows, g.surface_id);
    let k = match found {
        Some(k) => k,
        None => {
            *grab = None;
            return (None, None);
        },
    };
    let window = windows[k];
    if window.layout != WindowLayout::Floating {
        *grab = None;
        return (None, None);
    }
    let workspace = match window.workspace {
        Some(id) => id,
        None => unassigned_stack,
    };
    let viewport = match resolve_output_state_for_workspace(outputs, Some(workspace), primary_output) {
        Some(o) => Some(outputs[o].viewport),
        None => None,
    };
    let next = geometry_for_pointer(&g, delta_x, delta_y, Some(window.scene_geometry));
    let moved = window.scene_geometry.x != next.x || window.scene_geometry.y != next.y;
    let resized = window.scene_geometry.width != next.width
        || window.scene_geometry.height != next.height;
    let resize_edges = match g.mode {
        WindowGrabMode::Resize { edges } => Some(edges),
        WindowGrabMode::Move => None,
    };
    let mut updated = window;
    let mut moved_report: Option<(u64, i64, i64)> = None;
    if resize_edges.is_some() && resized && window.client_driven_resize {
        let edges = match resize_edges {
            Some(edges) => edges,
            None => ResizeEdges::NoEdge,
        };
        let inflight = match window.pending_resize {
            Some(pending) => pending.inflight_geometry,
            None => None,
        };
        updated.pending_resize = Some(
            PendingInteractiveResize { requested_geometry: next, inflight_geometry: inflight, edges },
        );
    } else if moved || resized {
        updated.scene_geometry = next;
        updated.geometry = match viewport {
            Some(viewport) => project_scene_geometry(&next, &viewport),
            None => SurfaceGeometry {
                x: saturating_isize_to_i32(next.x),
                y: saturating_isize_to_i32(next.y),
                width: next.width,
                height: next.height,
            },
        };
        if moved {
            updated.placement.set_explicit_position(WindowPosition { x: next.x, y: next.y });
            moved_report = Some((g.surface_id, next.x as i64, next.y as i64));
        }
        if resized {
            updated.placement.floating_size = Some(WindowSize { width: next.width, height: next.height });
            if !moved {
                updated.placement.set_explicit_position(WindowPosition { x: next.x, y: next.y });
            }
        }
    }
    windows.set(k, updated);
    *focus = Some(g.surface_id);
    if released {
        *grab = None;
    }
    (Some((workspace, g.surface_id)), moved_report)
}

} // verus!

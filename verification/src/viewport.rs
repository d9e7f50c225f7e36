//! Per-window passes over the output viewports: projecting scene rectangles into output-local
//! coordinates (with viewport visibility), and the fullscreen / maximized geometry pass.

#[allow(unused_imports)]
use vstd::prelude::*;
use crate::geometry::{
    at_least_one, find_output_by_name, has_output_name, initialize_scene_geometry_from_surface,
    intersects_viewport, output_for_workspace, project_scene_geometry, projected,
    resolve_output_state_for_workspace, scene_from_surface, scene_geometry_intersects_viewport,
    WindowViewportVisibility,
};
use crate::model::{OutputRecord, SurfaceGeometry, WindowMode, WindowSceneGeometry, WorkArea};
use crate::search::{first_index, lemma_first_index_bounds};

verus! {

/// Marker type documenting the fullscreen / maximized layout pass.
#[derive(Clone, Copy, Debug, PartialEq, Eq, Structural)]
pub struct FullscreenLayout;

/// A window as the viewport projection sees it.
#[derive(Clone, Debug, PartialEq, Eq)]
pub struct ViewportWindow {
    /// Output the window is the background of, by name.
    pub background_output: Option<String>,
    pub workspace: Option<u32>,
    pub mode: WindowMode,
    /// Output a fullscreen window asked for, by name.
    pub fullscreen_target: Option<String>,
    pub geometry: SurfaceGeometry,
    pub scene_geometry: WindowSceneGeometry,
}

/// Where a window ends up after projection.
#[derive(Clone, Debug, PartialEq, Eq)]
pub struct ProjectedWindow {
    pub geometry: SurfaceGeometry,
    pub scene_geometry: WindowSceneGeometry,
    pub visibility: WindowViewportVisibility,
}

/// The output a window is shown on: for a fullscreen window its target output when that exists,
/// else its workspace's output.
pub open spec fn window_output(outputs: Seq<OutputRecord>, primary_output: Option<u64>, window: ViewportWindow) -> Option<int> {
    if window.mode == WindowMode::Fullscreen {
        fullscreen_output(outputs, window.workspace, window.fullscreen_target, primary_output)
    } else {
        output_for_workspace(outputs, window.workspace, primary_output)
    }
}

/// Scene rectangle after seeding an empty one from the surface rectangle.
pub open spec fn seeded_scene(window: ViewportWindow, output: OutputRecord) -> WindowSceneGeometry {
    if window.scene_geometry.width != 0 || window.scene_geometry.height != 0 {
        window.scene_geometry
    } else {
        scene_from_surface(window.geometry, output.viewport)
    }
}

/// The projection of one window. A background window covers its named output (visible unless
/// hidden), or is invisible on no output when that output is gone. Any other window is shown on
/// its workspace's output (a fullscreen window on the output it asked for, when that output
/// exists; see [`fullscreen_output`]): hidden windows are invisible, maximized and fullscreen windows are
/// visible, and normal windows get their scene rectangle (seeded from the surface rectangle
/// when empty) projected into output-local coordinates, visible when it overlaps the viewport.
/// With no output at all the window is invisible and keeps its rectangles.
pub open spec fn projection(
    outputs: Seq<OutputRecord>,
    primary_output: Option<u64>,
    window: ViewportWindow,
) -> ProjectedWindow {
    match window.background_output {
        Some(name) => match first_index(outputs, has_output_name(name@)) {
            Some(i) => ProjectedWindow {
                geometry: SurfaceGeometry {
                    x: 0,
                    y: 0,
                    width: at_least_one(outputs[i].properties.width) as u32,
                    height: at_least_one(outputs[i].properties.height) as u32,
                },
                scene_geometry: window.scene_geometry,
                visibility: WindowViewportVisibility {
                    visible: window.mode != WindowMode::Hidden,
                    output: Some(name),
                },
            },
            None => ProjectedWindow {
                geometry: window.geometry,
                scene_geometry: window.scene_geometry,
                visibility: WindowViewportVisibility { visible: false, output: None },
            },
        },
        None => match window_output(outputs, primary_output, window) {
            Some(i) => {
                let output = outputs[i];
                let (geometry, scene, visible) = match window.mode {
                    WindowMode::Hidden => (window.geometry, window.scene_geometry, false),
                    WindowMode::Maximized | WindowMode::Fullscreen => (
                        window.geometry,
                        window.scene_geometry,
                        true,
                    ),
                    WindowMode::Normal => {
                        let scene = seeded_scene(window, output);
                        (
                            projected(scene, output.viewport),
                            scene,
                            intersects_viewport(scene, output.viewport, output.properties),
                        )
                    },
                };
                ProjectedWindow {
                    geometry,
                    scene_geometry: scene,
                    visibility: WindowViewportVisibility {
                        visible,
                        output: if visible {
                            Some(output.name)
                        } else {
                            None
                        },
                    },
                }
            },
            None => ProjectedWindow {
                geometry: window.geometry,
                scene_geometry: window.scene_geometry,
                visibility: WindowViewportVisibility { visible: false, output: None },
            },
        },
    }
}

fn resolve_window_output(
    outputs: &Vec<OutputRecord>,
    primary_output: Option<u64>,
    workspace: Option<u32>,
    mode: WindowMode,
    fullscreen_target: &Option<String>,
) -> (index: Option<usize>)
    ensures
        index matches Some(i) ==> i < outputs@.len(),
        match index {
            Some(i) => Some(i as int) == (if mode == WindowMode::Fullscreen {
                fullscreen_output(outputs@, workspace, *fullscreen_target, primary_output)
            } else {
                output_for_workspace(outputs@, workspace, primary_output)
            }),
            None => (if mode == WindowMode::Fullscreen {
                fullscreen_output(outputs@, workspace, *fullscreen_target, primary_output)
            } else {
                output_for_workspace(outputs@, workspace, primary_output)
            }) is None,
        },
{
    if mode == WindowMode::Fullscreen {
        if let Some(name) = fullscreen_target {
            proof {
                lemma_first_index_bounds(outputs@, has_output_name(name@), 0);
            }
            if let Some(k) = find_output_by_name(outputs, name) {
                return Some(k);
            }
        }
    }
    resolve_output_state_for_workspace(outputs, workspace, primary_output)
}

fn project_window(outputs: &Vec<OutputRecord>, primary_output: Option<u64>, window: &ViewportWindow) -> (result:
    ProjectedWindow)
    ensures
        result == projection(outputs@, primary_output, *window),
{
    match &window.background_output {
        Some(name) => {
            proof {
                lemma_first_index_bounds(outputs@, has_output_name(name@), 0);
            }
            match find_output_by_name(outputs, name) {
                Some(i) => {
                    let properties = outputs[i].properties;
                    let width: u32 = if properties.width == 0 { 1 } else { properties.width };
                    let height: u32 = if properties.height == 0 { 1 } else { properties.height };
                    ProjectedWindow {
                        geometry: SurfaceGeometry { x: 0, y: 0, width, height },
                        scene_geometry: window.scene_geometry,
                        visibility: WindowViewportVisibility {
                            visible: window.mode != WindowMode::Hidden,
                            output: Some(name.clone()),
                        },
                    }
                },
                None => ProjectedWindow {
                    geometry: window.geometry,
                    scene_geometry: window.scene_geometry,
                    visibility: WindowViewportVisibility { visible: false, output: None },
                },
            }
        },
        None => match resolve_window_output(outputs, primary_output, window.workspace, window.mode, &window.fullscreen_target) {
            Some(i) => {
                let output = &outputs[i];
                let mut geometry = window.geometry;
                let mut scene = window.scene_geometry;
                let visible = match window.mode {
                    WindowMode::Hidden => false,
                    WindowMode::Maximized | WindowMode::Fullscreen => true,
                    WindowMode::Normal => {
                        initialize_scene_geometry_from_surface(&mut scene, &window.geometry, &output.viewport);
                        let overlaps = scene_geometry_intersects_viewport(&scene, &output.viewport, &output.properties);
                        geometry = project_scene_geometry(&scene, &output.viewport);
                        overlaps
                    },
                };
                ProjectedWindow {
                    geometry,
                    scene_geometry: scene,
                    visibility: WindowViewportVisibility {
                        visible,
                        output: if visible {
                            Some(output.name.clone())
                        } else {
                            None
                        },
                    },
                }
            },
            None => ProjectedWindow {
                geometry: window.geometry,
                scene_geometry: window.scene_geometry,
                visibility: WindowViewportVisibility { visible: false, output: None },
            },
        },
    }
}

/// Projects every window through the output viewports; see [`projection`].
pub fn window_viewport_projection_system(
    outputs: &Vec<OutputRecord>,
    primary_output: Option<u64>,
    windows: &Vec<ViewportWindow>,
) -> (projected_windows: Vec<ProjectedWindow>)
    ensures
        projected_windows@.len() == windows@.len(),
        forall|i: int|
            0 <= i < windows@.len() ==> #[trigger] projected_windows@[i] == projection(
                outputs@,
                primary_output,
                windows@[i],
            ),
{
    let mut result: Vec<ProjectedWindow> = Vec::new();
    let mut i: usize = 0;
    while i < windows.len()
        invariant
            i <= windows@.len(),
            result@.len() == i,
            forall|j: int| 0 <= j < i ==> #[trigger] result@[j] == projection(outputs@, primary_output, windows@[j]),
        decreases windows.len() - i,
    {
        result.push(project_window(outputs, primary_output, &windows[i]));
        i += 1;
    }
    result
}

/// A window as the fullscreen pass sees it.
#[derive(Clone, Debug, PartialEq, Eq)]
pub struct FullscreenWindow {
    /// Whether the shell manages the window (helper surfaces are left alone).
    pub managed: bool,
    pub workspace: Option<u32>,
    pub mode: WindowMode,
    /// Output a fullscreen window asked for, by name.
    pub fullscreen_target: Option<String>,
    pub geometry: SurfaceGeometry,
}

/// Inset that keeps maximized windows off the output edge.
pub const MAXIMIZED_INSET: u32 = 16;

/// The output a fullscreen window covers: its named target when that output exists, else its
/// workspace's output.
pub open spec fn fullscreen_output(
    outputs: Seq<OutputRecord>,
    workspace: Option<u32>,
    target: Option<String>,
    primary_output: Option<u64>,
) -> Option<int> {
    let by_target = match target {
        Some(name) => first_index(outputs, has_output_name(name@)),
        None => None,
    };
    if by_target is Some {
        by_target
    } else {
        output_for_workspace(outputs, workspace, primary_output)
    }
}

/// `value - amount`, or zero.
pub open spec fn saturating_minus(value: u32, amount: int) -> int {
    if value >= amount {
        value - amount
    } else {
        0
    }
}

/// Geometry after the fullscreen pass. A managed fullscreen window covers its output from the
/// origin (sides at least one); a managed maximized window fills the work area of its
/// workspace's output (or `work_area` with no output), inset on every side. Everything else keeps
/// its geometry, as does a fullscreen window with no output.
pub open spec fn fullscreen_geometry(
    outputs: Seq<OutputRecord>,
    primary_output: Option<u64>,
    work_area: WorkArea,
    window: FullscreenWindow,
) -> SurfaceGeometry {
    if !window.managed {
        window.geometry
    } else {
        match window.mode {
            WindowMode::Fullscreen => match fullscreen_output(
                outputs,
                window.workspace,
                window.fullscreen_target,
                primary_output,
            ) {
                Some(i) => SurfaceGeometry {
                    x: 0,
                    y: 0,
                    width: at_least_one(outputs[i].properties.width) as u32,
                    height: at_least_one(outputs[i].properties.height) as u32,
                },
                None => window.geometry,
            },
            WindowMode::Maximized => {
                let area = match output_for_workspace(outputs, window.workspace, primary_output) {
                    Some(i) => outputs[i].work_area,
                    None => work_area,
                };
                let width = saturating_minus(area.width, 2 * MAXIMIZED_INSET);
                let height = saturating_minus(area.height, 2 * MAXIMIZED_INSET);
                SurfaceGeometry {
                    x: (area.x + MAXIMIZED_INSET) as i32,
                    y: (area.y + MAXIMIZED_INSET) as i32,
                    width: if width == 0 { 1 } else { width as u32 },
                    height: if height == 0 { 1 } else { height as u32 },
                }
            },
            _ => window.geometry,
        }
    }
}

/// Whether the inset origin of a work area fits in `i32`.
pub open spec fn inset_fits(area: WorkArea) -> bool {
    area.x + MAXIMIZED_INSET <= i32::MAX && area.y + MAXIMIZED_INSET <= i32::MAX
}

fn maximized_geometry(area: WorkArea) -> (geometry: SurfaceGeometry)
    requires
        inset_fits(area),
    ensures
        geometry.x == area.x + MAXIMIZED_INSET,
        geometry.y == area.y + MAXIMIZED_INSET,
        geometry.width == (if saturating_minus(area.width, 2 * MAXIMIZED_INSET) == 0 {
            1
        } else {
            saturating_minus(area.width, 2 * MAXIMIZED_INSET)
        }),
        geometry.height == (if saturating_minus(area.height, 2 * MAXIMIZED_INSET) == 0 {
            1
        } else {
            saturating_minus(area.height, 2 * MAXIMIZED_INSET)
        }),
{
    let inset: i32 = 16;
    let width: u32 = if area.width >= 32 { area.width - 32 } else { 0 };
    let height: u32 = if area.height >= 32 { area.height - 32 } else { 0 };
    SurfaceGeometry {
        x: area.x + inset,
        y: area.y + inset,
        width: if width == 0 { 1 } else { width },
        height: if height == 0 { 1 } else { height },
    }
}

/// Applies fullscreen and maximized geometry after layout and work areas were updated; returns
/// each window's geometry, in order (see [`fullscreen_geometry`]).
pub fn fullscreen_layout_system(
    outputs: &Vec<OutputRecord>,
    primary_output: Option<u64>,
    work_area: WorkArea,
    windows: &Vec<FullscreenWindow>,
) -> (geometries: Vec<SurfaceGeometry>)
    requires
        inset_fits(work_area),
        forall|i: int| 0 <= i < outputs@.len() ==> inset_fits(#[trigger] outputs@[i].work_area),
    ensures
        geometries@.len() == windows@.len(),
        forall|i: int|
            0 <= i < windows@.len() ==> #[trigger] geometries@[i] == fullscreen_geometry(
                outputs@,
                primary_output,
                work_area,
                windows@[i],
            ),
{
    let mut result: Vec<SurfaceGeometry> = Vec::new();
    let mut i: usize = 0;
    while i < windows.len()
        invariant
            i <= windows@.len(),
            result@.len() == i,
            inset_fits(work_area),
            forall|k: int| 0 <= k < outputs@.len() ==> inset_fits(#[trigger] outputs@[k].work_area),
            forall|j: int|
                0 <= j < i ==> #[trigger] result@[j] == fullscreen_geometry(
                    outputs@,
                    primary_output,
                    work_area,
                    windows@[j],
                ),
        decreases windows.len() - i,
    {
        let window = &windows[i];
        let geometry = if !window.managed {
            window.geometry
        } else {
            match window.mode {
                WindowMode::Fullscreen => {
                    let by_target = match &window.fullscreen_target {
                        Some(name) => {
                            proof {
                                lemma_first_index_bounds(outputs@, has_output_name(name@), 0);
                            }
                            find_output_by_name(outputs, name)
                        },
                        None => None,
                    };
                    let chosen = match by_target {
                        Some(k) => Some(k),
                        None => resolve_output_state_for_workspace(outputs, window.workspace, primary_output),
                    };
                    match chosen {
                        Some(k) => {
                            let properties = outputs[k].properties;
                            SurfaceGeometry {
                                x: 0,
                                y: 0,
                                width: if properties.width == 0 { 1 } else { properties.width },
                                height: if properties.height == 0 { 1 } else { properties.height },
                            }
                        },
                        None => window.geometry,
                    }
                },
                WindowMode::Maximized => {
                    let area = match resolve_output_state_for_workspace(outputs, window.workspace, primary_output) {
                        Some(k) => outputs[k].work_area,
                        None => work_area,
                    };
                    maximized_geometry(area)
                },
                _ => window.geometry,
            }
        };
        result.push(geometry);
        i += 1;
    }
    result
}

} // verus!

//! Scene-to-output projection: viewport intersection, projection, centring, and output lookup.

#[allow(unused_imports)]
use vstd::prelude::*;

use crate::search::{first_index, first_index_from, lemma_first_index_bounds};
use crate::model::{
    OutputProperties, OutputRecord, OutputViewport, SurfaceGeometry, WindowSceneGeometry,
};

verus! {

/// Value clamped into the `i32` range.
pub open spec fn clamp_i32(value: int) -> int {
    if value < i32::MIN {
        i32::MIN as int
    } else if value > i32::MAX {
        i32::MAX as int
    } else {
        value
    }
}

/// Value clamped into the `isize` range.
pub open spec fn clamp_isize(value: int) -> int {
    if value < isize::MIN {
        isize::MIN as int
    } else if value > isize::MAX {
        isize::MAX as int
    } else {
        value
    }
}

/// Saturating conversion from `isize` to `i32`.
pub fn saturating_isize_to_i32(value: isize) -> (result: i32)
    ensures
        result == clamp_i32(value as int),
{
    if value < (i32::MIN as isize) {
        i32::MIN
    } else if value > (i32::MAX as isize) {
        i32::MAX
    } else {
        value as i32
    }
}

/// A `u32` read as `isize` the way `as isize` does (wrapping where `isize` is narrower).
pub open spec fn u32_in_isize(value: u32) -> int {
    if value > isize::MAX {
        value - 2 * (isize::MAX + 1)
    } else {
        value as int
    }
}

/// Reinterprets a `u32` as `isize` the way `as isize` does.
pub fn u32_as_isize(value: u32) -> (result: isize)
    ensures
        result == u32_in_isize(value),
{
    if value as u64 <= isize::MAX as u64 {
        value as isize
    } else {
        (value as i64 - 2 * (isize::MAX as i64 + 1)) as isize
    }
}

/// `isize` addition that saturates at the type bounds.
pub fn isize_saturating_add(a: isize, b: isize) -> (result: isize)
    ensures
        result == clamp_isize(a + b),
{
    if b > 0 {
        if a > isize::MAX - b {
            isize::MAX
        } else {
            a + b
        }
    } else {
        if a < isize::MIN - b {
            isize::MIN
        } else {
            a + b
        }
    }
}

/// `isize` subtraction that saturates at the type bounds.
pub fn isize_saturating_sub(a: isize, b: isize) -> (result: isize)
    ensures
        result == clamp_isize(a - b),
{
    if b < 0 {
        if a > isize::MAX + b {
            isize::MAX
        } else {
            a - b
        }
    } else {
        if a < isize::MIN + b {
            isize::MIN
        } else {
            a - b
        }
    }
}

/// Scene rectangle that a surface rectangle occupies when shown through `viewport`.
pub open spec fn scene_from_surface(
    geometry: SurfaceGeometry,
    viewport: OutputViewport,
) -> WindowSceneGeometry {
    WindowSceneGeometry {
        x: clamp_isize(viewport.origin_x + geometry.x) as isize,
        y: clamp_isize(viewport.origin_y + geometry.y) as isize,
        width: geometry.width,
        height: geometry.height,
    }
}

/// Seeds an empty scene rectangle from the surface rectangle; a scene rectangle with a non-zero
/// side is left alone.
pub fn initialize_scene_geometry_from_surface(
    scene_geometry: &mut WindowSceneGeometry,
    geometry: &SurfaceGeometry,
    viewport: &OutputViewport,
)
    ensures
        (old(scene_geometry).width != 0 || old(scene_geometry).height != 0) ==> *final(scene_geometry) == *old(scene_geometry),
        (old(scene_geometry).width == 0 && old(scene_geometry).height == 0) ==> *final(scene_geometry) == scene_from_surface(*geometry, *viewport),
{
    if scene_geometry.width != 0 || scene_geometry.height != 0 {
        return ;
    }
    scene_geometry.x = isize_saturating_add(viewport.origin_x, geometry.x as isize);
    scene_geometry.y = isize_saturating_add(viewport.origin_y, geometry.y as isize);
    scene_geometry.width = geometry.width;
    scene_geometry.height = geometry.height;
}

/// `max(value, 1)` for sizes.
pub open spec fn at_least_one(value: u32) -> int {
    if value == 0 {
        1
    } else {
        value as int
    }
}

/// Whether a non-empty scene rectangle overlaps the output rectangle seen through `viewport`
/// (half-open bounds; an output side of zero counts as one).
pub open spec fn intersects_viewport(
    scene: WindowSceneGeometry,
    viewport: OutputViewport,
    output: OutputProperties,
) -> bool {
    &&& scene.width != 0
    &&& scene.height != 0
    &&& scene.x < viewport.origin_x + at_least_one(output.width)
    &&& scene.x + scene.width > viewport.origin_x
    &&& scene.y < viewport.origin_y + at_least_one(output.height)
    &&& scene.y + scene.height > viewport.origin_y
}

/// Tests whether a scene rectangle is at least partly visible through an output viewport.
pub fn scene_geometry_intersects_viewport(
    scene_geometry: &WindowSceneGeometry,
    viewport: &OutputViewport,
    output: &OutputProperties,
) -> (result: bool)
    ensures
        result == intersects_viewport(*scene_geometry, *viewport, *output),
{
    if scene_geometry.width == 0 || scene_geometry.height == 0 {
        return false;
    }
    let left = scene_geometry.x as i128;
    let top = scene_geometry.y as i128;
    let right = left + scene_geometry.width as i128;
    let bottom = top + scene_geometry.height as i128;
    let output_width: u32 = if output.width == 0 { 1 } else { output.width };
    let output_height: u32 = if output.height == 0 { 1 } else { output.height };
    let viewport_left = viewport.origin_x as i128;
    let viewport_top = viewport.origin_y as i128;
    let viewport_right = viewport_left + output_width as i128;
    let viewport_bottom = viewport_top + output_height as i128;
    left < viewport_right && right > viewport_left && top < viewport_bottom && bottom
        > viewport_top
}

/// Whether the point `(px, py)` lies in the half-open rectangle at `(x, y)` of size `w` by `h`.
pub open spec fn covers_point(x: int, y: int, w: int, h: int, px: int, py: int) -> bool {
    x <= px < x + w && y <= py < y + h
}

/// A scene rectangle is visible through a viewport exactly when some pixel lies both in it and in
/// the output's rectangle at the viewport origin (an output side of zero counts as one pixel). In
/// particular a rectangle that ends at or before the viewport's left (top) edge, or starts at or
/// after its right (bottom) edge, is not visible.
pub proof fn law_visible_iff_sharing_a_pixel(
    scene: WindowSceneGeometry,
    viewport: OutputViewport,
    output: OutputProperties,
)
    ensures
        ({
            let output_width: int = if output.width == 0 { 1 } else { output.width as int };
            let output_height: int = if output.height == 0 { 1 } else { output.height as int };
            &&& intersects_viewport(scene, viewport, output) <==> exists|px: int, py: int|
                #![trigger covers_point(scene.x as int, scene.y as int, scene.width as int, scene.height as int, px, py)]
                covers_point(scene.x as int, scene.y as int, scene.width as int, scene.height as int, px, py)
                    && covers_point(viewport.origin_x as int, viewport.origin_y as int, output_width, output_height, px, py)
            &&& scene.x + scene.width <= viewport.origin_x ==> !intersects_viewport(scene, viewport, output)
            &&& scene.y + scene.height <= viewport.origin_y ==> !intersects_viewport(scene, viewport, output)
            &&& scene.x >= viewport.origin_x + output_width ==> !intersects_viewport(scene, viewport, output)
            &&& scene.y >= viewport.origin_y + output_height ==> !intersects_viewport(scene, viewport, output)
        }),
{
    let output_width: int = if output.width == 0 { 1 } else { output.width as int };
    let output_height: int = if output.height == 0 { 1 } else { output.height as int };
    if intersects_viewport(scene, viewport, output) {
        let px: int = if scene.x < viewport.origin_x { viewport.origin_x as int } else { scene.x as int };
        let py: int = if scene.y < viewport.origin_y { viewport.origin_y as int } else { scene.y as int };
        assert(covers_point(scene.x as int, scene.y as int, scene.width as int, scene.height as int, px, py));
        assert(covers_point(viewport.origin_x as int, viewport.origin_y as int, output_width, output_height, px, py));
    }
}

/// Output-local rectangle of a scene rectangle seen through `viewport`.
pub open spec fn projected(
    scene: WindowSceneGeometry,
    viewport: OutputViewport,
) -> SurfaceGeometry {
    SurfaceGeometry {
        x: clamp_i32(clamp_isize(scene.x - viewport.origin_x)) as i32,
        y: clamp_i32(clamp_isize(scene.y - viewport.origin_y)) as i32,
        width: scene.width,
        height: scene.height,
    }
}

/// Projects a scene rectangle into output-local coordinates.
pub fn project_scene_geometry(
    scene_geometry: &WindowSceneGeometry,
    viewport: &OutputViewport,
) -> (result: SurfaceGeometry)
    ensures
        result == projected(*scene_geometry, *viewport),
{
    SurfaceGeometry {
        x: saturating_isize_to_i32(isize_saturating_sub(scene_geometry.x, viewport.origin_x)),
        y: saturating_isize_to_i32(isize_saturating_sub(scene_geometry.y, viewport.origin_y)),
        width: scene_geometry.width,
        height: scene_geometry.height,
    }
}

/// Viewport origin that puts the centre of `scene` at the centre of the output.
pub open spec fn centred_viewport(
    scene: WindowSceneGeometry,
    output: OutputProperties,
) -> OutputViewport {
    OutputViewport {
        origin_x: clamp_isize(
            clamp_isize(scene.x + scene.width / 2) - output.width / 2,
        ) as isize,
        origin_y: clamp_isize(
            clamp_isize(scene.y + scene.height / 2) - output.height / 2,
        ) as isize,
    }
}

/// Moves the viewport so the scene rectangle's centre lands on the output centre.
pub fn center_viewport_on_scene_geometry(
    viewport: &mut OutputViewport,
    scene_geometry: &WindowSceneGeometry,
    output: &OutputProperties,
)
    requires
        output.width / 2 <= isize::MAX,
        output.height / 2 <= isize::MAX,
        scene_geometry.width / 2 <= isize::MAX,
        scene_geometry.height / 2 <= isize::MAX,
    ensures
        *final(viewport) == centred_viewport(*scene_geometry, *output),
{
    let half_width = (output.width / 2) as isize;
    let half_height = (output.height / 2) as isize;
    let target_x = isize_saturating_add(scene_geometry.x, (scene_geometry.width / 2) as isize);
    let target_y = isize_saturating_add(scene_geometry.y, (scene_geometry.height / 2) as isize);
    viewport.origin_x = isize_saturating_sub(target_x, half_width);
    viewport.origin_y = isize_saturating_sub(target_y, half_height);
}

/// Output showing `workspace_id`.
pub open spec fn shows_workspace(workspace_id: u32) -> spec_fn(OutputRecord) -> bool {
    |output: OutputRecord| output.current_workspace == Some(workspace_id)
}

/// Output with the given id.
pub open spec fn has_output_id(output_id: u64) -> spec_fn(OutputRecord) -> bool {
    |output: OutputRecord| output.id == output_id
}

/// Output with the given name.
pub open spec fn has_output_name(name: Seq<char>) -> spec_fn(OutputRecord) -> bool {
    |output: OutputRecord| output.name@ == name
}

/// Index of the output that a workspace is shown on: the output currently showing it, else the
/// primary output, else the first output.
pub open spec fn output_for_workspace(
    outputs: Seq<OutputRecord>,
    workspace_id: Option<u32>,
    primary_output: Option<u64>,
) -> Option<int> {
    let by_workspace = match workspace_id {
        Some(id) => first_index(outputs, shows_workspace(id)),
        None => None,
    };
    let by_primary = match primary_output {
        Some(id) => first_index(outputs, has_output_id(id)),
        None => None,
    };
    if by_workspace is Some {
        by_workspace
    } else if by_primary is Some {
        by_primary
    } else if outputs.len() > 0 {
        Some(0)
    } else {
        None
    }
}

/// Finds the first output satisfying the output-id predicate.
pub fn find_output_by_id(outputs: &Vec<OutputRecord>, output_id: u64) -> (result: Option<usize>)
    ensures
        match result {
            Some(i) => first_index(outputs@, has_output_id(output_id)) == Some(i as int),
            None => first_index(outputs@, has_output_id(output_id)) is None,
        },
{
    let mut i: usize = 0;
    while i < outputs.len()
        invariant
            i <= outputs.len(),
            first_index(outputs@, has_output_id(output_id)) == first_index_from(outputs@, has_output_id(output_id), i as int),
        decreases outputs.len() - i,
    {
        if outputs[i].id == output_id {
            return Some(i);
        }
        i += 1;
    }
    None
}

/// Finds the first output whose current workspace is `workspace_id`.
pub fn find_output_showing(outputs: &Vec<OutputRecord>, workspace_id: u32) -> (result: Option<
    usize,
>)
    ensures
        match result {
            Some(i) => first_index(outputs@, shows_workspace(workspace_id)) == Some(i as int),
            None => first_index(outputs@, shows_workspace(workspace_id)) is None,
        },
{
    let mut i: usize = 0;
    while i < outputs.len()
        invariant
            i <= outputs.len(),
            first_index(outputs@, shows_workspace(workspace_id)) == first_index_from(outputs@, shows_workspace(workspace_id), i as int),
        decreases outputs.len() - i,
    {
        if outputs[i].current_workspace == Some(workspace_id) {
            return Some(i);
        }
        i += 1;
    }
    None
}

/// Finds the first output with the given name.
pub fn find_output_by_name(outputs: &Vec<OutputRecord>, name: &String) -> (result: Option<usize>)
    ensures
        match result {
            Some(i) => first_index(outputs@, has_output_name(name@)) == Some(i as int),
            None => first_index(outputs@, has_output_name(name@)) is None,
        },
{
    let mut i: usize = 0;
    while i < outputs.len()
        invariant
            i <= outputs.len(),
            first_index(outputs@, has_output_name(name@)) == first_index_from(outputs@, has_output_name(name@), i as int),
        decreases outputs.len() - i,
    {
        if outputs[i].name == *name {
            return Some(i);
        }
        i += 1;
    }
    None
}

/// Resolves the output a workspace is shown on: the output showing it, else the primary output,
/// else the first output.
pub fn resolve_output_state_for_workspace(
    outputs: &Vec<OutputRecord>,
    workspace_id: Option<u32>,
    primary_output: Option<u64>,
) -> (result: Option<usize>)
    ensures
        match result {
            Some(i) => output_for_workspace(outputs@, workspace_id, primary_output) == Some(i as int),
            None => output_for_workspace(outputs@, workspace_id, primary_output) is None,
        },
        result matches Some(i) ==> i < outputs.len(),
{
    proof {
        if let Some(id) = workspace_id {
            lemma_first_index_bounds(outputs@, shows_workspace(id), 0);
        }
        if let Some(id) = primary_output {
            lemma_first_index_bounds(outputs@, has_output_id(id), 0);
        }
    }
    if let Some(id) = workspace_id {
        if let Some(i) = find_output_showing(outputs, id) {
            return Some(i);
        }
    }
    if let Some(id) = primary_output {
        if let Some(i) = find_output_by_id(outputs, id) {
            return Some(i);
        }
    }
    if outputs.len() > 0 {
        Some(0)
    } else {
        None
    }
}

/// Resolves an output by name.
pub fn resolve_output_state_by_name(outputs: &Vec<OutputRecord>, output_name: &String) -> (result:
    Option<usize>)
    ensures
        match result {
            Some(i) => first_index(outputs@, has_output_name(output_name@)) == Some(i as int),
            None => first_index(outputs@, has_output_name(output_name@)) is None,
        },
{
    find_output_by_name(outputs, output_name)
}

/// Viewport visibility of a window after projection.
#[derive(Clone, Debug, PartialEq, Eq)]
pub struct WindowViewportVisibility {
    pub visible: bool,
    pub output: Option<String>,
}

} // verus!

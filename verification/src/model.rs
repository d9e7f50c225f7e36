//! Plain-value records for the compositor state that the shell policy reads and writes.

#[allow(unused_imports)]
use vstd::prelude::*;

verus! {

/// Output-local surface rectangle.
#[derive(Clone, Copy, Debug, PartialEq, Eq, Structural)]
pub struct SurfaceGeometry {
    pub x: i32,
    pub y: i32,
    pub width: u32,
    pub height: u32,
}

/// Window rectangle in global scene coordinates.
#[derive(Clone, Copy, Debug, PartialEq, Eq, Structural)]
pub struct WindowSceneGeometry {
    pub x: isize,
    pub y: isize,
    pub width: u32,
    pub height: u32,
}

/// Scene-space origin of an output's viewport.
#[derive(Clone, Copy, Debug, PartialEq, Eq, Structural)]
pub struct OutputViewport {
    pub origin_x: isize,
    pub origin_y: isize,
}

/// Pixel size of an output.
#[derive(Clone, Copy, Debug, PartialEq, Eq, Structural)]
pub struct OutputProperties {
    pub width: u32,
    pub height: u32,
}

/// Usable rectangle after exclusive layer-shell zones were subtracted.
#[derive(Clone, Copy, Debug, PartialEq, Eq, Structural)]
pub struct WorkArea {
    pub x: i32,
    pub y: i32,
    pub width: u32,
    pub height: u32,
}

/// Layout family that owns a window's geometry.
#[derive(Clone, Copy, Debug, PartialEq, Eq, Structural)]
pub enum WindowLayout {
    Tiled,
    Floating,
}

/// Presentation mode of a window.
#[derive(Clone, Copy, Debug, PartialEq, Eq, Structural)]
pub enum WindowMode {
    Normal,
    Maximized,
    Fullscreen,
    Hidden,
}

/// One output as the shell sees it: identity, size, viewport, work area, and the workspace it
/// currently shows.
#[derive(Clone, Debug)]
pub struct OutputRecord {
    pub id: u64,
    pub name: String,
    pub properties: OutputProperties,
    pub viewport: OutputViewport,
    pub work_area: WorkArea,
    pub current_workspace: Option<u32>,
}

} // verus!

verus! {

/// Output-local rectangle used by overlay primitives.
#[derive(Clone, Copy, Debug, PartialEq, Eq, Structural)]
pub struct RenderRect {
    pub x: i32,
    pub y: i32,
    pub width: u32,
    pub height: u32,
}

} // verus!

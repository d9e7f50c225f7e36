use nekoland_shell::floating::{centre_x, centre_y, floating_layout_system, FloatingWindow};
use nekoland_shell::model::{SurfaceGeometry, WindowLayout, WindowMode, WindowSceneGeometry, WorkArea};
use nekoland_shell::window_control::{FloatingPosition, WindowPlacement, WindowPosition, WindowSize};

fn work_area() -> WorkArea {
    WorkArea { x: 0, y: 32, width: 1280, height: 688 }
}

fn unplaced() -> WindowPlacement {
    WindowPlacement { floating_position: None, floating_size: None }
}

fn window(
    geometry: SurfaceGeometry,
    attached: bool,
    client_driven_resize: bool,
    placement: WindowPlacement,
) -> FloatingWindow {
    FloatingWindow {
        layout: WindowLayout::Floating,
        mode: WindowMode::Normal,
        buffer_attached: Some(attached),
        client_driven_resize,
        geometry,
        scene_geometry: WindowSceneGeometry { x: 0, y: 0, width: 0, height: 0 },
        placement,
        workspace: None,
    }
}

/// Runs the floating layout once over a single window with no outputs.
fn run_once(window: FloatingWindow, area: WorkArea, previous: &mut Option<WorkArea>) -> FloatingWindow {
    let mut windows = vec![window];
    floating_layout_system(&mut windows, &Vec::new(), None, area, previous);
    windows.remove(0)
}

fn run_floating_layout(geometry: SurfaceGeometry, placement: WindowPlacement) -> SurfaceGeometry {
    run_once(window(geometry, true, true, placement), work_area(), &mut None).geometry
}

#[test]
fn new_window_is_centred_horizontally() {
    // work_area: x=0 w=1280  →  (1280 - 800) / 2 = 240
    assert_eq!(centre_x(&work_area(), 0, 800), 240);
}

#[test]
fn new_window_is_centred_vertically() {
    // work_area: y=32 h=688  →  32 + (688 - 600) / 2 = 32 + 44 = 76
    assert_eq!(centre_y(&work_area(), 0, 600), 76);
}

#[test]
fn window_wider_than_work_area_is_placed_at_work_area_origin() {
    assert_eq!(centre_x(&work_area(), 0, 2000), 0);
}

#[test]
fn window_taller_than_work_area_is_placed_at_work_area_top() {
    assert_eq!(centre_y(&work_area(), 0, 900), 32);
}

#[test]
fn centring_follows_the_viewport_origin() {
    assert_eq!(centre_x(&work_area(), 1000, 800), 1240);
    assert_eq!(centre_y(&work_area(), -50, 600), 26);
}

#[test]
fn compositor_managed_floating_layout_clamps_window_size_to_work_area() {
    let placed = run_once(
        window(SurfaceGeometry { x: 0, y: 0, width: 3000, height: 2000 }, true, false, unplaced()),
        WorkArea { x: 0, y: 0, width: 1280, height: 720 },
        &mut None,
    );
    assert_eq!(placed.geometry.width, 1280);
    assert_eq!(placed.geometry.height, 720);
}

#[test]
fn native_wayland_initial_floating_layout_clamps_unplaced_size_to_work_area() {
    let placed = run_once(
        window(SurfaceGeometry { x: 0, y: 0, width: 3000, height: 2000 }, true, true, unplaced()),
        WorkArea { x: 0, y: 0, width: 1280, height: 720 },
        &mut None,
    );
    assert_eq!(placed.geometry.width, 1280);
    assert_eq!(placed.geometry.height, 720);
}

#[test]
fn native_wayland_explicitly_sized_windows_can_exceed_work_area() {
    let placed = run_once(
        window(
            SurfaceGeometry { x: 0, y: 0, width: 3000, height: 2000 },
            true,
            true,
            WindowPlacement {
                floating_position: Some(FloatingPosition::Explicit(WindowPosition { x: 0, y: 0 })),
                floating_size: Some(WindowSize { width: 3000, height: 2000 }),
            },
        ),
        WorkArea { x: 0, y: 0, width: 1280, height: 720 },
        &mut None,
    );
    assert_eq!(placed.geometry.width, 3000);
    assert_eq!(placed.geometry.height, 2000);
}

#[test]
fn floating_layout_preserves_existing_non_origin_geometry() {
    let geometry = run_floating_layout(
        SurfaceGeometry { x: 400, y: 48, width: 320, height: 240 },
        unplaced(),
    );
    assert_eq!(geometry, SurfaceGeometry { x: 400, y: 48, width: 320, height: 240 });
}

#[test]
fn floating_layout_centers_unpositioned_origin_windows() {
    let geometry = run_floating_layout(
        SurfaceGeometry { x: 0, y: 0, width: 320, height: 240 },
        unplaced(),
    );
    assert_eq!(geometry.x, 480);
    assert_eq!(geometry.y, 256);
    assert_eq!(geometry.width, 320);
    assert_eq!(geometry.height, 240);
}

#[test]
fn floating_layout_recenters_unpositioned_windows_when_work_area_changes() {
    let mut previous = None;
    let first = run_once(
        window(SurfaceGeometry { x: 0, y: 0, width: 32, height: 32 }, true, true, unplaced()),
        WorkArea { x: 0, y: 0, width: 1024, height: 768 },
        &mut previous,
    );
    let second = run_once(first, WorkArea { x: 0, y: 0, width: 1920, height: 1080 }, &mut previous);
    assert_eq!((second.geometry.x, second.geometry.y), (944, 524));
}

#[test]
fn explicit_placement_applies_even_before_buffer_attach() {
    let placed = run_once(
        window(
            SurfaceGeometry { x: 0, y: 0, width: 320, height: 240 },
            false,
            true,
            WindowPlacement {
                floating_position: Some(FloatingPosition::Explicit(WindowPosition { x: 900, y: 120 })),
                floating_size: Some(WindowSize { width: 777, height: 555 }),
            },
        ),
        WorkArea { x: 0, y: 0, width: 1024, height: 768 },
        &mut None,
    );
    let geometry = placed.geometry;
    assert_eq!((geometry.x, geometry.y, geometry.width, geometry.height), (900, 120, 777, 555));
}

#[test]
fn explicit_placement_survives_work_area_changes() {
    let explicit = WindowPlacement {
        floating_position: Some(FloatingPosition::Explicit(WindowPosition { x: 10, y: 20 })),
        floating_size: None,
    };
    let mut previous = Some(WorkArea { x: 0, y: 0, width: 100, height: 100 });
    let placed = run_once(
        window(SurfaceGeometry { x: 0, y: 0, width: 50, height: 50 }, true, true, explicit),
        WorkArea { x: 0, y: 0, width: 1920, height: 1080 },
        &mut previous,
    );
    assert_eq!((placed.geometry.x, placed.geometry.y), (10, 20));
    assert_eq!(placed.placement, explicit);
}

use nekoland_shell::configure::{GrabStart, ResizeEdges, WindowGrabMode};
use nekoland_shell::interaction::{geometry_for_pointer, resize_geometry, MIN_WINDOW_SIZE};
use nekoland_shell::model::WindowSceneGeometry;

const START_POINTER: (f64, f64) = (100.0, 200.0);

fn grab_state(mode: WindowGrabMode) -> GrabStart {
    GrabStart {
        surface_id: 7,
        mode,
        start_scene_geometry: WindowSceneGeometry { x: 40, y: 60, width: 800, height: 600 },
    }
}

/// The rounded pointer delta the caller hands to the grab geometry.
fn delta(x: f64, y: f64) -> (i32, i32) {
    ((x - START_POINTER.0).round() as i32, (y - START_POINTER.1).round() as i32)
}

#[test]
fn move_grab_tracks_pointer_delta() {
    let (dx, dy) = delta(148.0, 236.0);
    let geometry = geometry_for_pointer(&grab_state(WindowGrabMode::Move), dx, dy, None);
    assert_eq!(geometry.x, 88);
    assert_eq!(geometry.y, 96);
    assert_eq!(geometry.width, 800);
    assert_eq!(geometry.height, 600);
}

#[test]
fn resize_grab_respects_minimum_size_on_left_edge() {
    let (dx, dy) = delta(900.0, 200.0);
    let geometry = geometry_for_pointer(
        &grab_state(WindowGrabMode::Resize { edges: ResizeEdges::Left }),
        dx,
        dy,
        None,
    );
    assert_eq!(geometry.x, 808);
    assert_eq!(geometry.width, 32);
}

#[test]
fn bottom_right_resize_expands_geometry_by_pointer_delta() {
    let (dx, dy) = delta(164.0, 248.0);
    let geometry = geometry_for_pointer(
        &grab_state(WindowGrabMode::Resize { edges: ResizeEdges::BottomRight }),
        dx,
        dy,
        None,
    );
    assert_eq!(geometry.width, 864);
    assert_eq!(geometry.height, 648);
}

#[test]
fn move_grab_preserves_current_size_when_client_size_changed_during_grab() {
    let (dx, dy) = delta(148.0, 236.0);
    let geometry = geometry_for_pointer(
        &grab_state(WindowGrabMode::Move),
        dx,
        dy,
        Some(WindowSceneGeometry { x: 40, y: 60, width: 960, height: 720 }),
    );
    assert_eq!(geometry.x, 88);
    assert_eq!(geometry.y, 96);
    assert_eq!(geometry.width, 960);
    assert_eq!(geometry.height, 720);
}

#[test]
fn left_resize_keeps_the_right_edge() {
    let start = WindowSceneGeometry { x: 40, y: 60, width: 800, height: 600 };
    for dx in [-300, -1, 0, 5, 500, 790, 2000] {
        let geometry = resize_geometry(&start, ResizeEdges::Left, dx, 0);
        assert_eq!(geometry.x + geometry.width as isize, start.x + start.width as isize);
        assert!(geometry.width as i32 >= MIN_WINDOW_SIZE);
    }
}

#[test]
fn top_resize_shrinks_to_the_minimum_and_no_edge_keeps_geometry() {
    let start = WindowSceneGeometry { x: 0, y: 0, width: 100, height: 100 };
    let top = resize_geometry(&start, ResizeEdges::Top, 0, 1000);
    assert_eq!(top.height as i32, MIN_WINDOW_SIZE);
    assert_eq!(top.y, 100 - MIN_WINDOW_SIZE as isize);
    assert_eq!(resize_geometry(&start, ResizeEdges::NoEdge, 40, 40), start);
}

use std::collections::BTreeMap;

use nekoland_shell::configure::ResizeEdges;
use nekoland_shell::interaction::PendingInteractiveResize;
use nekoland_shell::model::{SurfaceGeometry, WindowMode, WindowSceneGeometry};
use nekoland_shell::presentation::{
    window_presentation_sync_system, PresentationSync, PresentationWindow, WindowPresentationState,
};
use nekoland_shell::window_policy::WindowRole;

fn window(
    surface_id: u64,
    mode: WindowMode,
    geometry: (i32, i32, u32, u32),
    scene: (isize, isize, u32, u32),
    client_driven_resize: bool,
) -> PresentationWindow {
    PresentationWindow {
        surface_id,
        role: WindowRole::Managed,
        mode,
        geometry: SurfaceGeometry { x: geometry.0, y: geometry.1, width: geometry.2, height: geometry.3 },
        scene_geometry: WindowSceneGeometry { x: scene.0, y: scene.1, width: scene.2, height: scene.3 },
        pending_resize: None,
        sized: false,
        client_driven_resize,
        committed_width: 0,
        committed_height: 0,
    }
}

fn sync(window: PresentationWindow) -> Vec<PresentationSync> {
    let mut windows = vec![window];
    let mut synced = BTreeMap::new();
    window_presentation_sync_system(&mut windows, &mut synced)
}

fn only_state(requests: &[PresentationSync]) -> WindowPresentationState {
    assert_eq!(requests.len(), 1);
    requests[0].state
}

#[test]
fn background_windows_sync_fullscreen_output_local_presentation() {
    let mut background = window(11, WindowMode::Fullscreen, (0, 0, 1920, 1080), (200, 300, 640, 480), false);
    background.role = WindowRole::OutputBackground;
    let state = only_state(&sync(background));
    assert_eq!(state.geometry, SurfaceGeometry { x: 0, y: 0, width: 1920, height: 1080 });
    assert_eq!(state.scene_geometry, Some(WindowSceneGeometry { x: 200, y: 300, width: 640, height: 480 }));
    assert!(state.fullscreen);
    assert!(!state.maximized);
    assert!(!state.resizing);
}

#[test]
fn normal_x11_windows_sync_scene_geometry() {
    let state = only_state(&sync(window(22, WindowMode::Normal, (10, 20, 800, 600), (1200, 2100, 800, 600), false)));
    assert_eq!(state.geometry, SurfaceGeometry { x: 10, y: 20, width: 800, height: 600 });
    assert_eq!(state.scene_geometry, Some(WindowSceneGeometry { x: 1200, y: 2100, width: 800, height: 600 }));
    assert!(!state.fullscreen);
    assert!(!state.maximized);
    assert!(!state.resizing);
}

#[test]
fn normal_xdg_windows_do_not_emit_presentation_sync() {
    let requests = sync(window(33, WindowMode::Normal, (50, 60, 1024, 768), (4000, 5000, 1024, 768), true));
    assert!(requests.is_empty());
}

#[test]
fn fullscreen_xdg_windows_sync_state_without_geometry() {
    let state = only_state(&sync(window(44, WindowMode::Fullscreen, (0, 0, 1280, 720), (4000, 5000, 1024, 768), true)));
    assert_eq!(state.geometry, SurfaceGeometry { x: 0, y: 0, width: 1280, height: 720 });
    assert_eq!(state.scene_geometry, Some(WindowSceneGeometry { x: 4000, y: 5000, width: 1024, height: 768 }));
    assert!(state.fullscreen);
    assert!(!state.maximized);
    assert!(!state.resizing);
}

#[test]
fn resized_floating_xdg_windows_sync_explicit_size() {
    let mut sized = window(55, WindowMode::Normal, (50, 60, 1024, 768), (4000, 5000, 1440, 900), true);
    sized.sized = true;
    let state = only_state(&sync(sized));
    assert_eq!(state.geometry, SurfaceGeometry { x: 50, y: 60, width: 1024, height: 768 });
    assert_eq!(state.scene_geometry, Some(WindowSceneGeometry { x: 4000, y: 5000, width: 1440, height: 900 }));
    assert!(!state.fullscreen);
    assert!(!state.maximized);
    assert!(!state.resizing);
}

#[test]
fn client_driven_xdg_windows_sync_when_scene_size_differs_from_committed_size() {
    let mut fitted = window(56, WindowMode::Normal, (50, 60, 1280, 720), (4000, 5000, 1280, 720), true);
    fitted.committed_width = 1600;
    fitted.committed_height = 900;
    let state = only_state(&sync(fitted));
    assert_eq!(state.geometry.width, 1280);
    assert_eq!(state.geometry.height, 720);
    assert_eq!(state.scene_geometry, Some(WindowSceneGeometry { x: 4000, y: 5000, width: 1280, height: 720 }));
    assert!(!state.fullscreen);
    assert!(!state.maximized);
    assert!(!state.resizing);
}

#[test]
fn pending_interactive_resize_prefers_requested_size_over_committed_geometry() {
    let mut resizing = window(66, WindowMode::Normal, (50, 60, 1024, 768), (4000, 5000, 1024, 768), true);
    resizing.pending_resize = Some(PendingInteractiveResize {
        requested_geometry: WindowSceneGeometry { x: 4010, y: 5010, width: 1440, height: 900 },
        inflight_geometry: None,
        edges: ResizeEdges::BottomRight,
    });
    let state = only_state(&sync(resizing));
    assert_eq!(state.geometry, SurfaceGeometry { x: 50, y: 60, width: 1440, height: 900 });
    assert_eq!(state.scene_geometry, Some(WindowSceneGeometry { x: 4010, y: 5010, width: 1440, height: 900 }));
    assert!(!state.fullscreen);
    assert!(!state.maximized);
    assert!(state.resizing);
}

#[test]
fn a_second_sync_pass_is_quiet() {
    let mut windows = vec![window(22, WindowMode::Maximized, (10, 20, 800, 600), (1200, 2100, 800, 600), true)];
    let mut synced = BTreeMap::new();
    assert_eq!(window_presentation_sync_system(&mut windows, &mut synced).len(), 1);
    assert!(window_presentation_sync_system(&mut windows, &mut synced).is_empty());
    assert!(synced.contains_key(&22));
}

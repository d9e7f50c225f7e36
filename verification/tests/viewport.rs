use nekoland_shell::model::{
    OutputProperties, OutputRecord, OutputViewport, SurfaceGeometry, WindowMode,
    WindowSceneGeometry, WorkArea,
};
use nekoland_shell::viewport::{
    fullscreen_layout_system, window_viewport_projection_system, FullscreenWindow, ViewportWindow,
};

fn output(id: u64, name: &str, size: (u32, u32), viewport: (isize, isize), workspace: Option<u32>) -> OutputRecord {
    OutputRecord {
        id,
        name: name.to_owned(),
        properties: OutputProperties { width: size.0, height: size.1 },
        viewport: OutputViewport { origin_x: viewport.0, origin_y: viewport.1 },
        work_area: WorkArea { x: 0, y: 0, width: size.0, height: size.1 },
        current_workspace: workspace,
    }
}

#[test]
fn viewport_projection_moves_visible_window_into_output_local_coordinates() {
    let outputs = vec![output(1, "Virtual-1", (800, 600), (1000, 2000), None)];
    let windows = vec![ViewportWindow {
        background_output: None,
        workspace: None,
        mode: WindowMode::Normal,
        fullscreen_target: None,
        geometry: SurfaceGeometry { x: 0, y: 0, width: 320, height: 240 },
        scene_geometry: WindowSceneGeometry { x: 1120, y: 2090, width: 320, height: 240 },
    }];
    let projected = window_viewport_projection_system(&outputs, None, &windows);
    assert_eq!((projected[0].geometry.x, projected[0].geometry.y), (120, 90));
    assert!(projected[0].visibility.visible);
    assert_eq!(projected[0].visibility.output, Some("Virtual-1".to_owned()));
}

#[test]
fn fullscreen_layout_prefers_named_target_output_over_workspace_output() {
    let outputs = vec![
        output(1, "Virtual-1", (800, 600), (0, 0), Some(1)),
        output(2, "HDMI-A-1", (1920, 1080), (0, 0), Some(2)),
    ];
    let window = FullscreenWindow {
        managed: true,
        workspace: Some(1),
        mode: WindowMode::Fullscreen,
        fullscreen_target: Some("HDMI-A-1".to_owned()),
        geometry: SurfaceGeometry { x: 30, y: 40, width: 400, height: 300 },
    };
    let work_area = WorkArea { x: 0, y: 0, width: 800, height: 600 };
    let geometries = fullscreen_layout_system(&outputs, Some(1), work_area, &vec![window]);
    let geometry = geometries[0];
    let projected = window_viewport_projection_system(
        &outputs,
        Some(1),
        &vec![ViewportWindow {
            background_output: None,
            workspace: Some(1),
            mode: WindowMode::Fullscreen,
            fullscreen_target: Some("HDMI-A-1".to_owned()),
            geometry,
            scene_geometry: WindowSceneGeometry { x: 30, y: 40, width: 400, height: 300 },
        }],
    );
    assert_eq!((geometry.x, geometry.y), (0, 0));
    assert_eq!((geometry.width, geometry.height), (1920, 1080));
    assert!(projected[0].visibility.visible);
    assert_eq!(projected[0].visibility.output, Some("HDMI-A-1".to_owned()));
}

#[test]
fn maximized_windows_fill_the_inset_work_area() {
    let outputs = vec![output(1, "Virtual-1", (1280, 720), (0, 0), Some(1))];
    let window = FullscreenWindow {
        managed: true,
        workspace: Some(1),
        mode: WindowMode::Maximized,
        fullscreen_target: None,
        geometry: SurfaceGeometry { x: 30, y: 40, width: 400, height: 300 },
    };
    let unmanaged = FullscreenWindow { managed: false, ..window.clone() };
    let geometries = fullscreen_layout_system(&outputs, None, WorkArea { x: 0, y: 0, width: 10, height: 10 }, &vec![window, unmanaged]);
    assert_eq!(geometries[0], SurfaceGeometry { x: 16, y: 16, width: 1248, height: 688 });
    assert_eq!(geometries[1], SurfaceGeometry { x: 30, y: 40, width: 400, height: 300 });
    let tiny = FullscreenWindow { workspace: None, ..geometries_window() };
    let fallback = fullscreen_layout_system(&Vec::new(), None, WorkArea { x: 5, y: 5, width: 20, height: 20 }, &vec![tiny]);
    assert_eq!(fallback[0], SurfaceGeometry { x: 21, y: 21, width: 1, height: 1 });
}

fn geometries_window() -> FullscreenWindow {
    FullscreenWindow {
        managed: true,
        workspace: None,
        mode: WindowMode::Maximized,
        fullscreen_target: None,
        geometry: SurfaceGeometry { x: 0, y: 0, width: 1, height: 1 },
    }
}

#[test]
fn background_windows_cover_their_output_and_vanish_with_it() {
    let outputs = vec![output(1, "Virtual-1", (1280, 720), (500, 500), None)];
    let background = ViewportWindow {
        background_output: Some("Virtual-1".to_owned()),
        workspace: None,
        mode: WindowMode::Fullscreen,
        fullscreen_target: None,
        geometry: SurfaceGeometry { x: 3, y: 4, width: 5, height: 6 },
        scene_geometry: WindowSceneGeometry { x: 0, y: 0, width: 0, height: 0 },
    };
    let gone = ViewportWindow { background_output: Some("HDMI-A-1".to_owned()), ..background.clone() };
    let projected = window_viewport_projection_system(&outputs, None, &vec![background, gone]);
    assert_eq!(projected[0].geometry, SurfaceGeometry { x: 0, y: 0, width: 1280, height: 720 });
    assert!(projected[0].visibility.visible);
    assert!(!projected[1].visibility.visible);
    assert_eq!(projected[1].visibility.output, None);
}

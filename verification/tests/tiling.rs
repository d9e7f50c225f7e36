use nekoland_shell::shortcuts::ShortcutRegistry;
use nekoland_shell::model::{
    OutputProperties, OutputRecord, OutputViewport, SurfaceGeometry, WindowLayout, WindowMode,
    WindowSceneGeometry, WorkArea,
};
use nekoland_shell::tiling::{
    apply_arranged_tiles, finish_tiling_control, tiling_control_request_system, StagedViewport,
    TileUpdate, TilingOutcome, TilingPlan, TilingWindow,
    register_shortcuts, tiling_shortcut_system, HorizontalDirection, TilingControl,
    TilingPanDirection, VerticalDirection,
};

#[test]
fn tiling_shortcuts_register_with_expected_defaults() {
    let mut registry = ShortcutRegistry::new();
    register_shortcuts(&mut registry);
    assert_eq!(registry.len(), 16);
    let focus_left = registry
        .default_binding("tiling.focus_column.left")
        .expect("focus left shortcut should register");
    assert_eq!(focus_left, "Super+H");
    let pan_right = registry
        .default_binding("tiling.pan.right")
        .expect("pan right shortcut should register");
    assert_eq!(pan_right, "Super+Alt+L");
}

#[test]
fn tiling_shortcut_system_enqueues_controls_in_fixed_order() {
    let pressed = vec![
        "tiling.move_window.down".to_owned(),
        "tiling.focus_column.left".to_owned(),
        "tiling.pan.right".to_owned(),
        "tiling.consume.right".to_owned(),
    ];
    let pending = tiling_shortcut_system(&pressed);
    assert_eq!(
        pending,
        vec![
            TilingControl::FocusColumn { direction: HorizontalDirection::Left },
            TilingControl::MoveWindow { direction: VerticalDirection::Down },
            TilingControl::ConsumeIntoColumn { direction: HorizontalDirection::Right },
            TilingControl::PanViewport { direction: TilingPanDirection::Right },
        ]
    );
}

#[test]
fn no_pressed_tiling_shortcut_queues_nothing() {
    assert!(tiling_shortcut_system(&vec!["system.quit".to_owned()]).is_empty());
}

fn tile(surface_id: u64, managed: bool, workspace: Option<u32>) -> TilingWindow {
    TilingWindow {
        surface_id,
        managed,
        layout: WindowLayout::Tiled,
        mode: WindowMode::Normal,
        helper_surface: false,
        workspace,
        scene_geometry: WindowSceneGeometry { x: 0, y: 0, width: 10, height: 10 },
    }
}

#[test]
fn arranged_tiles_take_scene_and_projected_geometry() {
    let outputs = vec![OutputRecord {
        id: 1,
        name: "Virtual-1".to_owned(),
        properties: OutputProperties { width: 1280, height: 720 },
        viewport: OutputViewport { origin_x: 1280, origin_y: 0 },
        work_area: WorkArea { x: 0, y: 0, width: 1280, height: 720 },
        current_workspace: Some(1),
    }];
    let windows = vec![tile(10, true, Some(1)), tile(11, false, Some(1)), tile(12, true, Some(9)), tile(13, true, Some(1))];
    let arranged = vec![
        (10, SurfaceGeometry { x: 0, y: 0, width: 640, height: 720 }),
        (11, SurfaceGeometry { x: 640, y: 0, width: 640, height: 720 }),
        (10, SurfaceGeometry { x: 1300, y: 10, width: 600, height: 700 }),
        (12, SurfaceGeometry { x: 5, y: 6, width: 7, height: 8 }),
    ];
    let updates = apply_arranged_tiles(&windows, &arranged, &outputs, None, u32::MAX);
    assert_eq!(
        updates,
        vec![
            TileUpdate {
                surface_id: 10,
                scene_geometry: WindowSceneGeometry { x: 1300, y: 10, width: 600, height: 700 },
                geometry: SurfaceGeometry { x: 20, y: 10, width: 600, height: 700 },
            },
            TileUpdate {
                surface_id: 12,
                scene_geometry: WindowSceneGeometry { x: 5, y: 6, width: 7, height: 8 },
                geometry: SurfaceGeometry { x: -1275, y: 6, width: 7, height: 8 },
            },
        ]
    );
}

fn virtual_output(origin_x: isize) -> OutputRecord {
    OutputRecord {
        id: 1,
        name: "Virtual-1".to_owned(),
        properties: OutputProperties { width: 1280, height: 720 },
        viewport: OutputViewport { origin_x, origin_y: 0 },
        work_area: WorkArea { x: 0, y: 0, width: 1280, height: 720 },
        current_workspace: Some(1),
    }
}

// The column arithmetic belongs to the workspace tiling state; its arrangement of two new
// columns (full width, side by side) is handed in.
#[test]
fn tiling_layout_places_new_tiled_windows_in_full_width_columns() {
    let windows = vec![tile(11, true, Some(1)), tile(22, true, Some(1))];
    let arranged = vec![
        (11, SurfaceGeometry { x: 0, y: 0, width: 1280, height: 720 }),
        (22, SurfaceGeometry { x: 1280, y: 0, width: 1280, height: 720 }),
    ];
    let updates = apply_arranged_tiles(&windows, &arranged, &Vec::new(), None, u32::MAX);
    let left = updates[0].geometry;
    let right = updates[1].geometry;
    assert_eq!((left.x, left.y, left.width, left.height), (0, 0, 1280, 720));
    assert_eq!((right.x, right.y, right.width, right.height), (1280, 0, 1280, 720));
}

#[test]
fn tiling_control_pan_stages_snapped_viewport_move() {
    let windows = vec![tile(11, true, Some(1)), tile(22, true, Some(1))];
    let outputs = vec![virtual_output(0)];
    let mut staged: Vec<StagedViewport> = Vec::new();
    let plan = tiling_control_request_system(
        TilingControl::PanViewport { direction: TilingPanDirection::Right },
        Some(22),
        &windows,
        u32::MAX,
        &outputs,
        None,
        &staged,
    );
    match &plan {
        TilingPlan::Pan { output, origin_x, origin_y, .. } => {
            assert_eq!(output, "Virtual-1");
            assert_eq!((*origin_x, *origin_y), (0, 0));
        }
        _ => panic!("a pan with a focused tile on an output plans a pan"),
    }
    let mut focus = Some(22);
    // The tiling state snaps a pan to the right to the next column.
    finish_tiling_control(plan, TilingOutcome::Pan { target: Some((1280, 0)) }, &mut focus, &mut staged);
    assert_eq!(staged.len(), 1);
    assert_eq!(staged[0].x, 1280);
}

#[test]
fn tiling_move_column_stages_snapped_reveal_for_focused_surface() {
    let windows = vec![tile(11, true, Some(1)), tile(22, true, Some(1))];
    let outputs = vec![virtual_output(1280)];
    let mut staged: Vec<StagedViewport> = Vec::new();
    let plan = tiling_control_request_system(
        TilingControl::MoveColumn { direction: HorizontalDirection::Left },
        Some(22),
        &windows,
        u32::MAX,
        &outputs,
        None,
        &staged,
    );
    match &plan {
        TilingPlan::Restructure { surface_id, anchor_output: Some((name, _)), .. } => {
            assert_eq!(*surface_id, 22);
            assert_eq!(name, "Virtual-1");
        }
        _ => panic!("moving a focused tile plans a restructure"),
    }
    let mut focus = Some(22);
    // Moving the second column left moves its snapped anchor from 1280 to 0.
    finish_tiling_control(
        plan,
        TilingOutcome::Restructure { changed: true, previous_anchor: Some((1280, 0)), next_anchor: Some((0, 0)) },
        &mut focus,
        &mut staged,
    );
    assert_eq!(staged.len(), 1);
    assert_eq!(staged[0].x, 0);
}

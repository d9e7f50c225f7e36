use nekoland_shell::cli::SplitAxis;
use nekoland_shell::model::{
    OutputProperties, OutputRecord, OutputViewport, SurfaceGeometry, WindowLayout, WindowMode,
    WindowSceneGeometry, WorkArea,
};
use nekoland_shell::window_control::{
    window_control_request_system, ControlledWindow, UnassignedWorkspaceIds, WindowBackgroundControl,
    WindowControl, WindowControlEffect, WindowPlacement, WindowPosition, WindowSize,
};
use nekoland_shell::window_policy::{
    BackgroundRoleChange, WindowBackgroundState, WindowFullscreenTarget, WindowPolicy,
    WindowPolicyState, WindowRole,
};

const IDS: UnassignedWorkspaceIds = UnassignedWorkspaceIds { stack: 0, tiling: 0 };

fn output() -> OutputRecord {
    OutputRecord {
        id: 1,
        name: "Winit-1".to_owned(),
        properties: OutputProperties { width: 1280, height: 720 },
        viewport: OutputViewport { origin_x: 0, origin_y: 0 },
        work_area: WorkArea { x: 0, y: 0, width: 1280, height: 720 },
        current_workspace: None,
    }
}

fn window(surface_id: u64, layout: WindowLayout, geometry: (i32, i32, u32, u32)) -> ControlledWindow {
    ControlledWindow {
        surface_id,
        workspace: None,
        state: WindowBackgroundState {
            role: WindowRole::Managed,
            scene_geometry: WindowSceneGeometry {
                x: geometry.0 as isize,
                y: geometry.1 as isize,
                width: geometry.2,
                height: geometry.3,
            },
            fullscreen_target: WindowFullscreenTarget { output: None },
            layout,
            mode: WindowMode::Normal,
        },
        background: None,
        geometry: SurfaceGeometry { x: geometry.0, y: geometry.1, width: geometry.2, height: geometry.3 },
        placement: WindowPlacement { floating_position: None, floating_size: None },
        policy: WindowPolicyState { applied: WindowPolicy { layout, mode: WindowMode::Normal }, locked: false },
        override_redirect: false,
    }
}

fn control(surface_id: u64) -> WindowControl {
    WindowControl {
        surface_id,
        position: None,
        size: None,
        split_axis: None,
        focus: false,
        close: false,
        background: None,
    }
}

fn run(
    windows: &mut Vec<ControlledWindow>,
    controls: Vec<WindowControl>,
    focus: &mut Option<u64>,
) -> Vec<WindowControlEffect> {
    let (effects, deferred) = window_control_request_system(windows, &controls, &vec![output()], None, IDS, focus);
    assert!(deferred.is_empty());
    effects
}

#[test]
fn move_and_resize_controls_update_window_placement_and_geometry() {
    let mut windows = vec![window(7, WindowLayout::Tiled, (0, 0, 320, 240))];
    let mut focus = None;
    let mut request = control(7);
    request.position = Some(WindowPosition { x: 100, y: 120 });
    request.size = Some(WindowSize { width: 800, height: 600 });
    run(&mut windows, vec![request], &mut focus);
    let placement = windows[0].placement;
    let position = placement.resolved_floating_position().expect("position");
    assert_eq!(position.x, 100);
    assert_eq!(position.y, 120);
    assert_eq!(placement.floating_size.expect("size").width, 800);
    assert_eq!(placement.floating_size.expect("size").height, 600);
    let geometry = windows[0].geometry;
    assert_eq!((geometry.x, geometry.y, geometry.width, geometry.height), (100, 120, 800, 600));
    assert_eq!(windows[0].state.layout, WindowLayout::Floating);
    assert_eq!(windows[0].state.mode, WindowMode::Normal);
}

#[test]
fn split_controls_switch_window_to_tiled_geometry() {
    let mut left = window(17, WindowLayout::Floating, (80, 60, 320, 240));
    left.workspace = Some(1);
    let mut right = window(18, WindowLayout::Tiled, (420, 60, 320, 240));
    right.workspace = Some(1);
    let mut windows = vec![left, right];
    let mut focus = None;
    let mut request = control(17);
    request.split_axis = Some(SplitAxis::Vertical);
    let effects = run(&mut windows, vec![request], &mut focus);
    assert!(effects.contains(&WindowControlEffect::Tile { workspace: 1, surface_id: 17, axis: SplitAxis::Vertical }));
    assert_eq!(windows[0].state.layout, WindowLayout::Tiled);
    assert!(windows[0].policy.locked);
}

#[test]
fn close_controls_translate_to_low_level_close_requests() {
    let mut windows = vec![window(9, WindowLayout::Floating, (0, 0, 100, 100))];
    let mut focus = None;
    let mut request = control(9);
    request.close = true;
    let effects = run(&mut windows, vec![request], &mut focus);
    assert_eq!(effects, vec![WindowControlEffect::Close { surface_id: 9 }]);
}

#[test]
fn focus_controls_update_keyboard_focus() {
    let mut windows = vec![window(11, WindowLayout::Floating, (0, 0, 100, 100))];
    let mut focus = None;
    let mut request = control(11);
    request.focus = true;
    run(&mut windows, vec![request], &mut focus);
    assert_eq!(focus, Some(11));
}

#[test]
fn background_controls_insert_and_clear_output_background_role() {
    let mut windows = vec![window(13, WindowLayout::Floating, (0, 0, 100, 100))];
    let mut focus = None;
    let mut attach = control(13);
    attach.background = Some(WindowBackgroundControl::Attach { output: 1 });
    let effects = run(&mut windows, vec![attach], &mut focus);
    let inserted = effects.iter().find_map(|effect| match effect {
        WindowControlEffect::Background { surface_id: 13, change: BackgroundRoleChange::Insert(background) } => {
            Some(background.clone())
        }
        _ => None,
    });
    let background = inserted.expect("background role should be inserted");
    assert_eq!(background.output, 1);
    assert_eq!(windows[0].state.role, WindowRole::OutputBackground);

    windows[0].background = Some(background);
    let mut clear = control(13);
    clear.background = Some(WindowBackgroundControl::Clear);
    let effects = run(&mut windows, vec![clear], &mut focus);
    assert!(
        effects.contains(&WindowControlEffect::Background { surface_id: 13, change: BackgroundRoleChange::Remove }),
        "background role should be removable",
    );
    assert_eq!(windows[0].state.role, WindowRole::Managed);
}

#[test]
fn controls_for_unknown_windows_are_deferred() {
    let mut windows = vec![window(1, WindowLayout::Floating, (0, 0, 100, 100))];
    let mut focus = None;
    let mut request = control(99);
    request.focus = true;
    let (effects, deferred) =
        window_control_request_system(&mut windows, &vec![request], &vec![output()], None, IDS, &mut focus);
    assert!(effects.is_empty());
    assert_eq!(deferred, vec![request]);
    assert_eq!(focus, None);
}

use nekoland_shell::model::{WindowLayout, WindowMode, WindowSceneGeometry};
use nekoland_shell::window_policy::{
    apply_window_policy, enter_temporary_window_mode, lock_window_policy, refresh_window_policy,
    restore_window_state, sync_window_background_role, BackgroundRoleChange, WindowBackgroundState,
    WindowFullscreenTarget, WindowPolicy, WindowPolicyState, WindowRestoreSnapshot,
    WindowRestoreState, WindowRole,
};

fn frame(geometry: WindowSceneGeometry, layout: WindowLayout, mode: WindowMode) -> WindowRestoreState {
    WindowRestoreState { geometry, layout, mode, fullscreen_output: None }
}

fn no_target() -> WindowFullscreenTarget {
    WindowFullscreenTarget { output: None }
}

#[test]
fn refresh_updates_current_policy_when_window_is_still_tracking_defaults() {
    let mut layout = WindowLayout::Floating;
    let mut mode = WindowMode::Normal;
    let mut restore = WindowRestoreSnapshot::default();
    let mut policy_state = WindowPolicyState::default();
    apply_window_policy(
        WindowPolicy::new(WindowLayout::Floating, WindowMode::Normal),
        &mut layout,
        &mut mode,
        &mut policy_state,
    );
    refresh_window_policy(
        WindowPolicy::new(WindowLayout::Tiled, WindowMode::Normal),
        &mut layout,
        &mut mode,
        &mut restore,
        &mut policy_state,
    );
    assert_eq!(layout, WindowLayout::Tiled);
    assert_eq!(mode, WindowMode::Normal);
    assert_eq!(policy_state.applied, WindowPolicy::new(WindowLayout::Tiled, WindowMode::Normal));
}

#[test]
fn refresh_updates_restore_snapshot_when_window_is_temporarily_overridden() {
    let mut layout = WindowLayout::Floating;
    let mut mode = WindowMode::Fullscreen;
    let mut restore = WindowRestoreSnapshot {
        frames: vec![frame(
            WindowSceneGeometry { x: 10, y: 20, width: 800, height: 600 },
            WindowLayout::Floating,
            WindowMode::Normal,
        )],
    };
    let mut policy_state = WindowPolicyState {
        applied: WindowPolicy::new(WindowLayout::Floating, WindowMode::Normal),
        locked: false,
    };
    refresh_window_policy(
        WindowPolicy::new(WindowLayout::Tiled, WindowMode::Normal),
        &mut layout,
        &mut mode,
        &mut restore,
        &mut policy_state,
    );
    assert_eq!(layout, WindowLayout::Floating);
    assert_eq!(mode, WindowMode::Fullscreen);
    let Some(snapshot) = restore.frames.last() else {
        panic!("restore snapshot");
    };
    assert_eq!(snapshot.layout, WindowLayout::Tiled);
}

#[test]
fn refresh_updates_nested_restore_snapshot_policy_frames() {
    let mut layout = WindowLayout::Floating;
    let mut mode = WindowMode::Fullscreen;
    let mut restore = WindowRestoreSnapshot {
        frames: vec![
            frame(WindowSceneGeometry { x: 10, y: 20, width: 800, height: 600 }, WindowLayout::Floating, WindowMode::Normal),
            frame(WindowSceneGeometry { x: 40, y: 50, width: 900, height: 700 }, WindowLayout::Floating, WindowMode::Maximized),
        ],
    };
    let mut policy_state = WindowPolicyState {
        applied: WindowPolicy::new(WindowLayout::Floating, WindowMode::Normal),
        locked: false,
    };
    refresh_window_policy(
        WindowPolicy::new(WindowLayout::Tiled, WindowMode::Normal),
        &mut layout,
        &mut mode,
        &mut restore,
        &mut policy_state,
    );
    let Some(snapshot) = restore.frames.last() else {
        panic!("restore snapshot");
    };
    assert_eq!(snapshot.layout, WindowLayout::Floating);
    assert_eq!(restore.frames.len(), 2, "previous restore snapshot");
    let previous = &restore.frames[0];
    assert_eq!(previous.layout, WindowLayout::Tiled);
    assert_eq!(previous.mode, WindowMode::Normal);
}

#[test]
fn repeated_temporary_mode_entry_keeps_original_restore_snapshot() {
    let scene_geometry = WindowSceneGeometry { x: 10, y: 20, width: 800, height: 600 };
    let mut fullscreen_target = no_target();
    let mut restore = WindowRestoreSnapshot::default();
    let mut layout = WindowLayout::Floating;
    let mut mode = WindowMode::Normal;
    let policy_state = WindowPolicyState::default();
    enter_temporary_window_mode(&scene_geometry, &mut fullscreen_target, &mut restore, layout, &mut mode, WindowMode::Maximized, None);
    let mut altered_scene_geometry = scene_geometry;
    altered_scene_geometry.x = 500;
    altered_scene_geometry.y = 600;
    enter_temporary_window_mode(
        &altered_scene_geometry,
        &mut fullscreen_target,
        &mut restore,
        layout,
        &mut mode,
        WindowMode::Maximized,
        None,
    );
    restore_window_state(&policy_state, &mut altered_scene_geometry, &mut fullscreen_target, &mut restore, &mut layout, &mut mode);
    assert_eq!(altered_scene_geometry, scene_geometry);
    assert_eq!(layout, WindowLayout::Floating);
    assert_eq!(mode, WindowMode::Normal);
    assert!(restore.frames.is_empty());
}

#[test]
fn nested_temporary_modes_restore_in_lifo_order() {
    let initial_geometry = WindowSceneGeometry { x: 10, y: 20, width: 800, height: 600 };
    let mut scene_geometry = initial_geometry;
    let mut fullscreen_target = no_target();
    let mut restore = WindowRestoreSnapshot::default();
    let mut layout = WindowLayout::Floating;
    let mut mode = WindowMode::Normal;
    let policy_state = WindowPolicyState::default();
    enter_temporary_window_mode(&scene_geometry, &mut fullscreen_target, &mut restore, layout, &mut mode, WindowMode::Maximized, None);
    scene_geometry = WindowSceneGeometry { x: 0, y: 0, width: 1920, height: 1080 };
    enter_temporary_window_mode(
        &scene_geometry,
        &mut fullscreen_target,
        &mut restore,
        layout,
        &mut mode,
        WindowMode::Fullscreen,
        Some("HDMI-A-1".to_owned()),
    );
    scene_geometry = WindowSceneGeometry { x: 0, y: 0, width: 2560, height: 1440 };
    restore_window_state(&policy_state, &mut scene_geometry, &mut fullscreen_target, &mut restore, &mut layout, &mut mode);
    assert_eq!(mode, WindowMode::Maximized);
    assert_eq!(scene_geometry, WindowSceneGeometry { x: 0, y: 0, width: 1920, height: 1080 });
    assert!(fullscreen_target.output.is_none());
    assert!(!restore.frames.is_empty());
    restore_window_state(&policy_state, &mut scene_geometry, &mut fullscreen_target, &mut restore, &mut layout, &mut mode);
    assert_eq!(mode, WindowMode::Normal);
    assert_eq!(scene_geometry, initial_geometry);
    assert!(restore.frames.is_empty());
}

#[test]
fn locked_policy_ignores_later_refreshes() {
    let mut layout = WindowLayout::Floating;
    let mut mode = WindowMode::Normal;
    let mut restore = WindowRestoreSnapshot::default();
    let mut policy_state = WindowPolicyState::default();
    apply_window_policy(WindowPolicy::new(WindowLayout::Tiled, WindowMode::Normal), &mut layout, &mut mode, &mut policy_state);
    layout = WindowLayout::Floating;
    lock_window_policy(layout, mode, &mut policy_state);
    refresh_window_policy(
        WindowPolicy::new(WindowLayout::Tiled, WindowMode::Fullscreen),
        &mut layout,
        &mut mode,
        &mut restore,
        &mut policy_state,
    );
    assert_eq!(layout, WindowLayout::Floating);
    assert_eq!(mode, WindowMode::Normal);
    assert_eq!(policy_state.applied, WindowPolicy::new(WindowLayout::Floating, WindowMode::Normal));
}

#[test]
fn sync_window_background_role_inserts_and_clears_background_component() {
    let mut window = WindowBackgroundState::new(
        WindowRole::Managed,
        WindowSceneGeometry { x: 10, y: 20, width: 800, height: 600 },
        no_target(),
        WindowLayout::Floating,
        WindowMode::Normal,
    );
    let change = sync_window_background_role(Some(7), &mut window, None);
    let BackgroundRoleChange::Insert(background) = change else {
        panic!("background role should exist");
    };
    assert_eq!(background.output, 7);
    assert_eq!(window.role, WindowRole::OutputBackground);
    assert_eq!(window.mode, WindowMode::Fullscreen);

    let change = sync_window_background_role(None, &mut window, Some(background));
    assert_eq!(change, BackgroundRoleChange::Remove);
    assert_eq!(window.role, WindowRole::Managed);
    assert_eq!(window.scene_geometry, WindowSceneGeometry { x: 10, y: 20, width: 800, height: 600 });
    assert_eq!(window.layout, WindowLayout::Floating);
    assert_eq!(window.mode, WindowMode::Normal);
}

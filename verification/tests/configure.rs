use nekoland_shell::configure::{
    configure_sequence_system, ConfigureAction, ConfigurePopup, ConfigureRequest, ConfigureWindow,
    XdgSurfaceRole,
};
use nekoland_shell::model::{WindowLayout, WindowMode, WindowSceneGeometry};
use nekoland_shell::window_policy::{
    WindowFullscreenTarget, WindowPolicyState, WindowRestoreSnapshot, WindowRestoreState,
};

const START: WindowSceneGeometry = WindowSceneGeometry { x: 12, y: 24, width: 640, height: 480 };

fn window() -> ConfigureWindow {
    ConfigureWindow {
        surface_id: 42,
        output_background: false,
        xdg_metadata: true,
        last_acked_configure: None,
        layout: WindowLayout::Floating,
        mode: WindowMode::Normal,
        policy: WindowPolicyState::default(),
        scene_geometry: START,
        fullscreen_target: WindowFullscreenTarget { output: None },
        restore: WindowRestoreSnapshot::default(),
    }
}

fn request(action: ConfigureAction) -> ConfigureRequest {
    ConfigureRequest { surface_id: 42, action }
}

fn run(windows: &mut Vec<ConfigureWindow>, popups: &mut Vec<ConfigurePopup>, actions: Vec<ConfigureAction>) -> Vec<ConfigureRequest> {
    let received: Vec<ConfigureRequest> = actions.into_iter().map(request).collect();
    let mut focus = None;
    let mut grab = None;
    configure_sequence_system(windows, popups, &Vec::new(), &received, &mut focus, &mut grab)
}

#[test]
fn repeated_maximize_restores_original_state() {
    let mut windows = vec![window()];
    let deferred = run(
        &mut windows,
        &mut Vec::new(),
        vec![ConfigureAction::Maximize, ConfigureAction::Maximize, ConfigureAction::UnMaximize],
    );
    assert!(deferred.is_empty());
    let window = &windows[0];
    assert_eq!(window.scene_geometry, START);
    assert_eq!(window.layout, WindowLayout::Floating);
    assert_eq!(window.mode, WindowMode::Normal);
    assert_eq!(window.fullscreen_target, WindowFullscreenTarget::default());
    assert_eq!(window.restore, WindowRestoreSnapshot::default());
}

#[test]
fn fullscreen_restore_returns_to_previous_temporary_state() {
    let mut windows = vec![window()];
    run(
        &mut windows,
        &mut Vec::new(),
        vec![
            ConfigureAction::Maximize,
            ConfigureAction::Fullscreen { output_name: Some("HDMI-A-1".to_owned()) },
            ConfigureAction::UnFullscreen,
        ],
    );
    assert_eq!(windows[0].mode, WindowMode::Maximized);
    assert_eq!(
        windows[0].restore.frames.last(),
        Some(&WindowRestoreState {
            geometry: START,
            layout: WindowLayout::Floating,
            mode: WindowMode::Normal,
            fullscreen_output: None,
        })
    );
    assert_eq!(windows[0].restore.frames.len(), 1);
    assert_eq!(windows[0].fullscreen_target, WindowFullscreenTarget::default());
    run(&mut windows, &mut Vec::new(), vec![ConfigureAction::UnMaximize]);
    assert_eq!(windows[0].mode, WindowMode::Normal);
    assert_eq!(windows[0].scene_geometry, START);
    assert_eq!(windows[0].restore, WindowRestoreSnapshot::default());
}

#[test]
fn requests_for_unknown_surfaces_are_deferred_and_acks_recorded() {
    let mut windows = vec![window()];
    let mut popups = vec![ConfigurePopup { surface_id: 7, configure_serial: None }];
    let received = vec![
        ConfigureRequest { surface_id: 99, action: ConfigureAction::Maximize },
        ConfigureRequest { surface_id: 42, action: ConfigureAction::AckConfigure { role: XdgSurfaceRole::Toplevel, serial: 5 } },
        ConfigureRequest { surface_id: 7, action: ConfigureAction::AckConfigure { role: XdgSurfaceRole::Popup, serial: 9 } },
    ];
    let mut focus = None;
    let mut grab = None;
    let deferred = configure_sequence_system(&mut windows, &mut popups, &Vec::new(), &received, &mut focus, &mut grab);
    assert_eq!(deferred, vec![ConfigureRequest { surface_id: 99, action: ConfigureAction::Maximize }]);
    assert_eq!(windows[0].last_acked_configure, Some(5));
    assert_eq!(popups[0].configure_serial, Some(9));
}

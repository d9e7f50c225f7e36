use nekoland_shell::configure::{GrabStart, ResizeEdges};
use nekoland_shell::interaction::{window_grab_system, GrabWindow};
use nekoland_shell::lifecycle::{LifecycleWindow, WindowManagementHints};
use nekoland_shell::model::{SurfaceGeometry, WindowLayout, WindowMode, WindowSceneGeometry};
use nekoland_shell::window_control::WindowPlacement;
use nekoland_shell::window_policy::{
    WindowBackgroundState, WindowFullscreenTarget, WindowPolicy, WindowPolicyState,
    WindowRestoreSnapshot, WindowRole,
};
use nekoland_shell::x11::{
    xwayland_bridge_system, X11Action, X11Effect, X11Inputs, X11Request, X11Rules, X11Window,
    X11WindowGeometry,
};

const WORKSPACE_ENTITY: u64 = 5;

fn x11_hints() -> WindowManagementHints {
    WindowManagementHints {
        client_driven_resize: false,
        prefer_floating: false,
        bypass_window_rules: false,
        helper_surface: false,
    }
}

fn inputs(active_workspace: Option<u64>) -> X11Inputs {
    X11Inputs { index: Vec::new(), popups: Vec::new(), output_size: Some((1280, 720)), active_workspace, hints: x11_hints() }
}

fn floating_rules() -> X11Rules {
    X11Rules { policy: WindowPolicy { layout: WindowLayout::Floating, mode: WindowMode::Normal }, background_output: None }
}

fn tiled_x11_window() -> X11Window {
    X11Window {
        entity: 1,
        window: LifecycleWindow {
            surface_id: 42,
            title: "X11 Test".to_owned(),
            app_id: "x11-test".to_owned(),
            hints: x11_hints(),
            buffer_attached: Some(true),
            content_version: 0,
            geometry: SurfaceGeometry { x: 32, y: 48, width: 640, height: 480 },
            state: WindowBackgroundState {
                role: WindowRole::Managed,
                scene_geometry: WindowSceneGeometry { x: 32, y: 48, width: 640, height: 480 },
                fullscreen_target: WindowFullscreenTarget { output: None },
                layout: WindowLayout::Tiled,
                mode: WindowMode::Normal,
            },
            background: None,
            restore: WindowRestoreSnapshot::default(),
            policy: WindowPolicyState { applied: WindowPolicy { layout: WindowLayout::Tiled, mode: WindowMode::Normal }, locked: false },
            placement: WindowPlacement { floating_position: None, floating_size: None },
            parent: None,
            pending_resize: None,
        },
        window_id: 7,
        override_redirect: false,
    }
}

/// Starts a grab through the bridge, then moves the pointer by the given delta.
fn grab_and_drag(action: X11Action, delta: (i32, i32)) -> (X11Window, Option<u64>, GrabWindow) {
    let mut windows = vec![tiled_x11_window()];
    let mut focus = None;
    let mut grab: Option<GrabStart> = None;
    let requests = vec![X11Request { surface_id: 42, action }];
    let (_, deferred) = xwayland_bridge_system(&inputs(None), &mut windows, &requests, &vec![floating_rules()], &mut focus, &mut grab, 10);
    assert!(deferred.is_empty());
    assert!(grab.is_some());
    let window = windows.remove(0);
    let mut grabbed = vec![GrabWindow {
        surface_id: 42,
        layout: window.window.state.layout,
        client_driven_resize: false,
        scene_geometry: window.window.state.scene_geometry,
        geometry: window.window.geometry,
        placement: window.window.placement,
        pending_resize: None,
        workspace: None,
    }];
    window_grab_system(&mut grab, &mut grabbed, delta.0, delta.1, &Vec::new(), None, false, 0, &mut focus);
    (window, focus, grabbed.remove(0))
}

#[test]
fn x11_interactive_move_request_updates_geometry_and_focus() {
    let (window, focus, grabbed) = grab_and_drag(X11Action::InteractiveMove { button: 1 }, (352 - 320, 196 - 180));
    assert_eq!((grabbed.geometry.x, grabbed.geometry.y), (64, 64));
    assert_eq!(window.window.state.layout, WindowLayout::Floating);
    assert_eq!(window.window.state.mode, WindowMode::Normal);
    assert_eq!(focus, Some(42));
}

#[test]
fn x11_interactive_resize_request_updates_geometry_and_focus() {
    let (window, focus, grabbed) = grab_and_drag(
        X11Action::InteractiveResize { button: 1, edges: ResizeEdges::BottomRight },
        (352 - 320, 196 - 180),
    );
    assert_eq!((grabbed.geometry.width, grabbed.geometry.height), (672, 496));
    assert_eq!(window.window.state.layout, WindowLayout::Floating);
    assert_eq!(window.window.state.mode, WindowMode::Normal);
    assert_eq!(focus, Some(42));
}

fn map(surface_id: u64, window_id: u32, rules: X11Rules) -> X11Window {
    let mut windows = Vec::new();
    let mut focus = None;
    let mut grab = None;
    let requests = vec![X11Request {
        surface_id,
        action: X11Action::Mapped {
            window_id,
            override_redirect: false,
            title: "mapped".to_owned(),
            app_id: "mapped.app".to_owned(),
            geometry: X11WindowGeometry { x: 16, y: 24, width: 640, height: 480 },
        },
    }];
    let (effects, _) = xwayland_bridge_system(&inputs(Some(WORKSPACE_ENTITY)), &mut windows, &requests, &vec![rules], &mut focus, &mut grab, 10);
    effects
        .into_iter()
        .find_map(|effect| match effect {
            X11Effect::Created(window) => Some(window),
            _ => None,
        })
        .expect("mapped X11 window should exist")
}

#[test]
fn mapped_window_inserts_child_of_active_workspace() {
    let window = map(77, 5, floating_rules());
    assert_eq!(window.window.surface_id, 77);
    assert_eq!(window.window.parent, Some(WORKSPACE_ENTITY), "mapped X11 window should attach to the active workspace entity");
}

#[test]
fn mapped_window_applies_matching_window_rule() {
    let window = map(88, 9, X11Rules { policy: WindowPolicy { layout: WindowLayout::Tiled, mode: WindowMode::Normal }, background_output: None });
    assert_eq!(window.window.state.layout, WindowLayout::Tiled);
    assert_eq!(window.window.state.mode, WindowMode::Normal);
}

#[test]
fn requests_for_unknown_x11_windows_wait() {
    let mut windows = Vec::new();
    let mut focus = None;
    let mut grab = None;
    let requests = vec![X11Request { surface_id: 3, action: X11Action::Maximize }];
    let (effects, deferred) = xwayland_bridge_system(&inputs(None), &mut windows, &requests, &vec![floating_rules()], &mut focus, &mut grab, 10);
    assert!(effects.is_empty());
    assert_eq!(deferred, requests);
}

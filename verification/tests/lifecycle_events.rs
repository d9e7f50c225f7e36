use nekoland_shell::configure::{GrabStart, ResizeEdges, WindowGrabMode};
use nekoland_shell::interaction::PendingInteractiveResize;
use nekoland_shell::lifecycle::{LifecycleWindow, PopupChild, WindowManagementHints, WindowManagerRequest};
use nekoland_shell::lifecycle_events::{
    window_lifecycle_step, window_lifecycle_system, LifecycleEffect, LifecycleEnv, RuleResolution,
    WindowEntity, WindowEvent, WindowEventRequest, WindowLifecycleRun, WindowRuleSubject, WorkspaceRef,
};
use nekoland_shell::model::{
    OutputProperties, OutputRecord, OutputViewport, SurfaceGeometry, WindowLayout, WindowMode,
    WindowSceneGeometry, WorkArea,
};
use nekoland_shell::window_control::{FloatingPosition, WindowPlacement, WindowPosition, WindowSize};
use nekoland_shell::window_policy::{
    WindowBackgroundState, WindowFullscreenTarget, WindowPolicy, WindowPolicyState,
    WindowRestoreSnapshot, WindowRestoreState, WindowRole,
};
use std::collections::BTreeSet;

const WORKSPACE_ENTITY: u64 = 900;

fn native_hints() -> WindowManagementHints {
    WindowManagementHints {
        client_driven_resize: true,
        prefer_floating: false,
        bypass_window_rules: false,
        helper_surface: false,
    }
}

fn env() -> LifecycleEnv {
    LifecycleEnv {
        outputs: Vec::new(),
        workspaces: vec![WorkspaceRef { entity: WORKSPACE_ENTITY, id: 1 }],
        popups: Vec::new(),
        primary_output: None,
        work_area: WorkArea { x: 0, y: 0, width: 1280, height: 720 },
        active_workspace: Some(WORKSPACE_ENTITY),
    }
}

fn tiled(_subject: &WindowRuleSubject) -> RuleResolution {
    RuleResolution {
        policy: WindowPolicy { layout: WindowLayout::Tiled, mode: WindowMode::Normal },
        background_output: None,
    }
}

fn floating_window(surface_id: u64, geometry: WindowSceneGeometry) -> LifecycleWindow {
    LifecycleWindow {
        surface_id,
        title: "Firefox".to_owned(),
        app_id: "org.mozilla.firefox".to_owned(),
        hints: native_hints(),
        buffer_attached: Some(true),
        content_version: 0,
        geometry: SurfaceGeometry {
            x: geometry.x as i32,
            y: geometry.y as i32,
            width: geometry.width,
            height: geometry.height,
        },
        state: WindowBackgroundState {
            role: WindowRole::Managed,
            scene_geometry: geometry,
            fullscreen_target: WindowFullscreenTarget { output: None },
            layout: WindowLayout::Floating,
            mode: WindowMode::Normal,
        },
        background: None,
        restore: WindowRestoreSnapshot::default(),
        policy: WindowPolicyState {
            applied: WindowPolicy { layout: WindowLayout::Floating, mode: WindowMode::Normal },
            locked: false,
        },
        placement: WindowPlacement { floating_position: None, floating_size: None },
        parent: Some(WORKSPACE_ENTITY),
        pending_resize: None,
    }
}

fn upsert(surface_id: u64, geometry: Option<WindowSceneGeometry>) -> WindowEventRequest {
    WindowEventRequest {
        surface_id,
        action: WindowEvent::Upsert {
            title: Some("Firefox".to_owned()),
            app_id: Some("org.mozilla.firefox".to_owned()),
            hints: native_hints(),
            scene_geometry: geometry,
            attached: true,
        },
    }
}

fn commit(surface_id: u64, size: (u32, u32)) -> WindowEventRequest {
    WindowEventRequest { surface_id, action: WindowEvent::Committed { size: Some(size), attached: true } }
}

fn spawned(run: &WindowLifecycleRun) -> Vec<&LifecycleWindow> {
    run.effects
        .iter()
        .filter_map(|effect| match effect {
            LifecycleEffect::Spawn { window, .. } => Some(window),
            _ => None,
        })
        .collect()
}

#[test]
fn upsert_creates_native_wayland_window_with_unified_window_component() {
    let geometry = WindowSceneGeometry { x: 0, y: 0, width: 800, height: 600 };
    let run = window_lifecycle_system(Vec::new(), None, None, vec![upsert(41, Some(geometry))], Vec::new(), &env(), tiled);

    let created = spawned(&run);
    assert_eq!(created.len(), 1);
    let window = created[0];
    assert_eq!(window.title, "Firefox");
    assert_eq!(window.app_id, "org.mozilla.firefox");
    assert!(window.hints.client_driven_resize);
    assert!(!window.hints.helper_surface);
    assert_eq!(window.surface_id, 41);
    assert_eq!(window.parent, Some(WORKSPACE_ENTITY));
    assert_eq!(window.state.layout, WindowLayout::Tiled);
    assert!(run.deferred.is_empty());
    assert!(run.known_surfaces.contains(&41));
}

#[test]
fn committed_resize_reanchors_top_edge_for_client_driven_windows() {
    let mut window = floating_window(63, WindowSceneGeometry { x: 10, y: 20, width: 800, height: 600 });
    window.pending_resize = Some(PendingInteractiveResize {
        requested_geometry: WindowSceneGeometry { x: 10, y: 120, width: 800, height: 500 },
        inflight_geometry: Some(WindowSceneGeometry { x: 10, y: 120, width: 800, height: 500 }),
        edges: ResizeEdges::Top,
    });
    let windows = vec![WindowEntity { entity: 7, window }];

    let run = window_lifecycle_system(windows, None, None, vec![commit(63, (800, 520))], Vec::new(), &env(), tiled);

    let window = &run.windows[0].window;
    assert_eq!(window.state.scene_geometry, WindowSceneGeometry { x: 10, y: 100, width: 800, height: 520 });
    assert_eq!(
        window.placement,
        WindowPlacement {
            floating_position: Some(FloatingPosition::Explicit(WindowPosition { x: 10, y: 100 })),
            floating_size: Some(WindowSize { width: 800, height: 520 }),
        }
    );
    assert!(matches!(run.effects.as_slice(), [LifecycleEffect::FinishResize { entity: 7 }]));
}

#[test]
fn requests_for_a_window_spawned_this_tick_wait_for_the_next_tick() {
    let geometry = WindowSceneGeometry { x: 0, y: 0, width: 800, height: 600 };
    let first = window_lifecycle_system(
        Vec::new(),
        None,
        None,
        Vec::new(),
        vec![upsert(41, Some(geometry)), commit(41, (640, 480))],
        &env(),
        tiled,
    );
    assert_eq!(spawned(&first).len(), 1);
    assert_eq!(first.deferred.len(), 1);
    assert_eq!(first.deferred[0].surface_id, 41);

    let window = match first.effects.into_iter().next() {
        Some(LifecycleEffect::Spawn { window, .. }) => window,
        _ => panic!("the upsert should spawn a window"),
    };
    let second = window_lifecycle_system(
        vec![WindowEntity { entity: 3, window }],
        None,
        None,
        first.deferred,
        Vec::new(),
        &env(),
        tiled,
    );
    assert!(second.deferred.is_empty());
    assert_eq!(second.windows[0].window.state.scene_geometry.width, 640);
    assert_eq!(second.windows[0].window.state.scene_geometry.height, 480);
    assert_eq!(second.windows[0].window.content_version, 1);
}

#[test]
fn metadata_upsert_without_window_waits_and_close_never_waits() {
    let mut run = WindowLifecycleRun {
        windows: Vec::new(),
        known_surfaces: BTreeSet::from([12]),
        focus: None,
        grab: None,
        effects: Vec::new(),
        deferred: Vec::new(),
    };
    window_lifecycle_step(&mut run, upsert(12, None), &env(), None);
    assert_eq!(run.deferred.len(), 1);
    window_lifecycle_step(&mut run, WindowEventRequest { surface_id: 12, action: WindowEvent::Closed }, &env(), None);
    assert_eq!(run.deferred.len(), 1);
    assert!(run.effects.is_empty());
    assert!(!run.known_surfaces.contains(&12));
}

#[test]
fn upsert_without_resolution_waits() {
    let mut run = WindowLifecycleRun {
        windows: Vec::new(),
        known_surfaces: BTreeSet::new(),
        focus: None,
        grab: None,
        effects: Vec::new(),
        deferred: Vec::new(),
    };
    let geometry = WindowSceneGeometry { x: 0, y: 0, width: 300, height: 200 };
    window_lifecycle_step(&mut run, upsert(5, Some(geometry)), &env(), None);
    assert_eq!(run.deferred.len(), 1);
    assert!(run.effects.is_empty());
    assert!(!run.known_surfaces.contains(&5));
}

#[test]
fn close_dismisses_popups_once_and_despawns_the_window() {
    let windows = vec![WindowEntity {
        entity: 7,
        window: floating_window(63, WindowSceneGeometry { x: 10, y: 20, width: 800, height: 600 }),
    }];
    let mut environment = env();
    environment.popups = vec![
        PopupChild { surface_id: 70, parent: 7 },
        PopupChild { surface_id: 71, parent: 8 },
        PopupChild { surface_id: 70, parent: 7 },
        PopupChild { surface_id: 72, parent: 7 },
    ];
    let run = window_lifecycle_system(
        windows,
        None,
        None,
        Vec::new(),
        vec![WindowEventRequest { surface_id: 63, action: WindowEvent::Closed }],
        &environment,
        tiled,
    );
    assert!(matches!(
        run.effects.as_slice(),
        [
            LifecycleEffect::DismissPopup { surface_id: 70 },
            LifecycleEffect::DismissPopup { surface_id: 72 },
            LifecycleEffect::Despawn { entity: 7, surface_id: 63 },
        ]
    ));
    assert!(!run.known_surfaces.contains(&63));
    assert!(run.deferred.is_empty());
}

#[test]
fn upsert_of_an_existing_window_reports_move_and_attaches_orphans() {
    let mut window = floating_window(63, WindowSceneGeometry { x: 10, y: 20, width: 800, height: 600 });
    window.parent = None;
    let windows = vec![WindowEntity { entity: 7, window }];
    let geometry = WindowSceneGeometry { x: 50, y: 60, width: 800, height: 600 };
    let run = window_lifecycle_system(windows, None, None, Vec::new(), vec![upsert(63, Some(geometry))], &env(), tiled);
    assert!(matches!(
        run.effects.as_slice(),
        [
            LifecycleEffect::Background { entity: 7, .. },
            LifecycleEffect::Moved { surface_id: 63, x: 50, y: 60 },
            LifecycleEffect::Parent { entity: 7, workspace: WORKSPACE_ENTITY },
        ]
    ));
    // The rules now tile the window, so the client geometry is applied without floating placement.
    let window = &run.windows[0].window;
    assert_eq!(window.state.layout, WindowLayout::Tiled);
    assert_eq!(window.state.scene_geometry, geometry);
    assert_eq!(window.placement, WindowPlacement { floating_position: None, floating_size: None });
}

#[test]
fn begin_move_request_floats_focuses_and_grabs_the_window() {
    let geometry = WindowSceneGeometry { x: 10, y: 20, width: 800, height: 600 };
    let mut window = floating_window(63, geometry);
    window.state.layout = WindowLayout::Tiled;
    let windows = vec![WindowEntity { entity: 7, window }];
    let run = window_lifecycle_system(
        windows,
        None,
        None,
        Vec::new(),
        vec![WindowEventRequest { surface_id: 63, action: WindowEvent::ManagerRequest(WindowManagerRequest::BeginMove) }],
        &env(),
        tiled,
    );
    assert_eq!(run.focus, Some(63));
    assert_eq!(
        run.grab,
        Some(GrabStart { surface_id: 63, mode: WindowGrabMode::Move, start_scene_geometry: geometry })
    );
    assert_eq!(run.windows[0].window.state.layout, WindowLayout::Floating);
    assert!(run.windows[0].window.policy.locked);
}

// The window lifecycle is the path through which toplevels are created, committed and closed;
// the toplevel scenarios below run through it.

#[test]
fn toplevel_create_inserts_child_of_active_workspace() {
    let geometry = WindowSceneGeometry { x: 0, y: 0, width: 800, height: 600 };
    let run = window_lifecycle_system(Vec::new(), None, None, Vec::new(), vec![upsert(21, Some(geometry))], &env(), tiled);
    let created = spawned(&run);
    assert_eq!(created.len(), 1);
    assert_eq!(created[0].surface_id, 21);
    assert_eq!(created[0].parent, Some(WORKSPACE_ENTITY), "new toplevel should attach to the active workspace entity");
}

#[test]
fn toplevel_destroy_queues_popup_dismiss_before_window_despawn() {
    let mut window = floating_window(11, WindowSceneGeometry { x: 0, y: 0, width: 800, height: 600 });
    window.state.layout = WindowLayout::Tiled;
    let mut environment = env();
    environment.popups = vec![PopupChild { surface_id: 12, parent: 4 }];
    let run = window_lifecycle_system(
        vec![WindowEntity { entity: 4, window }],
        None,
        None,
        vec![WindowEventRequest { surface_id: 11, action: WindowEvent::Closed }],
        Vec::new(),
        &environment,
        tiled,
    );
    let dismissed: Vec<u64> = run
        .effects
        .iter()
        .filter_map(|effect| match effect {
            LifecycleEffect::DismissPopup { surface_id } => Some(*surface_id),
            _ => None,
        })
        .collect();
    assert_eq!(dismissed, vec![12], "destroying a toplevel should queue one popup dismiss");
    assert!(matches!(
        run.effects.as_slice(),
        [LifecycleEffect::DismissPopup { surface_id: 12 }, LifecycleEffect::Despawn { entity: 4, surface_id: 11 }]
    ));
}

#[test]
fn committed_size_repositions_restore_geometry_using_workspace_output_area() {
    let outputs = vec![
        OutputRecord {
            id: 1,
            name: "Virtual-1".to_owned(),
            properties: OutputProperties { width: 640, height: 480 },
            viewport: OutputViewport { origin_x: 0, origin_y: 0 },
            work_area: WorkArea { x: 0, y: 0, width: 640, height: 480 },
            current_workspace: Some(1),
        },
        OutputRecord {
            id: 2,
            name: "HDMI-A-1".to_owned(),
            properties: OutputProperties { width: 1600, height: 900 },
            viewport: OutputViewport { origin_x: 0, origin_y: 0 },
            work_area: WorkArea { x: 100, y: 200, width: 800, height: 500 },
            current_workspace: Some(2),
        },
    ];
    let workspace_2 = 902;
    let environment = LifecycleEnv {
        outputs,
        workspaces: vec![WorkspaceRef { entity: WORKSPACE_ENTITY, id: 1 }, WorkspaceRef { entity: workspace_2, id: 2 }],
        popups: Vec::new(),
        primary_output: Some(1),
        work_area: WorkArea { x: 0, y: 0, width: 640, height: 480 },
        active_workspace: Some(WORKSPACE_ENTITY),
    };
    let mut window = floating_window(51, WindowSceneGeometry { x: 0, y: 0, width: 300, height: 200 });
    window.buffer_attached = Some(false);
    window.state.mode = WindowMode::Fullscreen;
    window.restore = WindowRestoreSnapshot {
        frames: vec![WindowRestoreState {
            geometry: WindowSceneGeometry { x: 0, y: 0, width: 300, height: 200 },
            layout: WindowLayout::Floating,
            mode: WindowMode::Normal,
            fullscreen_output: None,
        }],
    };
    window.parent = Some(workspace_2);
    let run = window_lifecycle_system(
        vec![WindowEntity { entity: 5, window }],
        None,
        None,
        vec![commit(51, (200, 100))],
        Vec::new(),
        &environment,
        tiled,
    );
    let restore = run.windows[0].window.restore.frames.last().expect("restore snapshot should remain present");
    assert_eq!(restore.geometry, WindowSceneGeometry { x: 400, y: 400, width: 200, height: 100 });
}

fn rules(subject: &WindowRuleSubject) -> RuleResolution {
    let layout = if subject.app_id == "org.nekoland.rules" { WindowLayout::Tiled } else { WindowLayout::Floating };
    RuleResolution { policy: WindowPolicy { layout, mode: WindowMode::Normal }, background_output: None }
}

#[test]
fn metadata_change_reapplies_matching_window_rule() {
    let geometry = WindowSceneGeometry { x: 0, y: 0, width: 800, height: 600 };
    let first = window_lifecycle_system(Vec::new(), None, None, Vec::new(), vec![WindowEventRequest {
        surface_id: 21,
        action: WindowEvent::Upsert { title: None, app_id: None, hints: native_hints(), scene_geometry: Some(geometry), attached: true },
    }], &env(), rules);
    let window = match first.effects.into_iter().next() {
        Some(LifecycleEffect::Spawn { window, .. }) => window,
        _ => panic!("the first upsert should spawn the window"),
    };
    assert_eq!(window.state.layout, WindowLayout::Floating);
    let second = window_lifecycle_system(
        vec![WindowEntity { entity: 3, window }],
        None,
        None,
        Vec::new(),
        vec![WindowEventRequest {
            surface_id: 21,
            action: WindowEvent::Upsert {
                title: Some("Rules".to_owned()),
                app_id: Some("org.nekoland.rules".to_owned()),
                hints: native_hints(),
                scene_geometry: None,
                attached: true,
            },
        }],
        &env(),
        rules,
    );
    let window = &second.windows[0].window;
    assert_eq!(window.title, "Rules");
    assert_eq!(window.state.layout, WindowLayout::Tiled);
    assert_eq!(window.state.mode, WindowMode::Normal);
}

fn resizing_window(surface_id: u64, requested: WindowSceneGeometry, inflight: WindowSceneGeometry, edges: ResizeEdges) -> WindowEntity {
    let mut window = floating_window(surface_id, WindowSceneGeometry { x: 10, y: 20, width: 800, height: 600 });
    window.pending_resize = Some(PendingInteractiveResize { requested_geometry: requested, inflight_geometry: Some(inflight), edges });
    WindowEntity { entity: 9, window }
}

#[test]
fn mismatched_committed_resize_does_not_leave_resize_stuck() {
    let target = WindowSceneGeometry { x: 10, y: 20, width: 1200, height: 900 };
    let run = window_lifecycle_system(
        vec![resizing_window(61, target, target, ResizeEdges::BottomRight)],
        None,
        None,
        vec![commit(61, (1024, 768))],
        Vec::new(),
        &env(),
        tiled,
    );
    assert!(matches!(run.effects.as_slice(), [LifecycleEffect::FinishResize { entity: 9 }]));
    assert_eq!(run.windows[0].window.state.scene_geometry, WindowSceneGeometry { x: 10, y: 20, width: 1024, height: 768 });
}

#[test]
fn mismatched_committed_resize_keeps_newer_requested_target() {
    let requested = WindowSceneGeometry { x: 10, y: 20, width: 1400, height: 1000 };
    let inflight = WindowSceneGeometry { x: 10, y: 20, width: 1200, height: 900 };
    let run = window_lifecycle_system(
        vec![resizing_window(62, requested, inflight, ResizeEdges::BottomRight)],
        None,
        None,
        vec![commit(62, (1024, 768))],
        Vec::new(),
        &env(),
        tiled,
    );
    assert!(run.effects.is_empty());
    assert_eq!(
        run.windows[0].window.pending_resize,
        Some(PendingInteractiveResize { requested_geometry: requested, inflight_geometry: None, edges: ResizeEdges::BottomRight })
    );
    assert_eq!(run.windows[0].window.state.scene_geometry, WindowSceneGeometry { x: 10, y: 20, width: 1024, height: 768 });
}

#[test]
fn top_edge_resize_reanchors_position_when_client_commits_constrained_height() {
    let target = WindowSceneGeometry { x: 10, y: 120, width: 800, height: 500 };
    let run = window_lifecycle_system(
        vec![resizing_window(63, target, target, ResizeEdges::Top)],
        None,
        None,
        vec![commit(63, (800, 520))],
        Vec::new(),
        &env(),
        tiled,
    );
    let window = &run.windows[0].window;
    assert_eq!(window.state.scene_geometry, WindowSceneGeometry { x: 10, y: 100, width: 800, height: 520 });
    assert_eq!(
        window.placement,
        WindowPlacement {
            floating_position: Some(FloatingPosition::Explicit(WindowPosition { x: 10, y: 100 })),
            floating_size: Some(WindowSize { width: 800, height: 520 }),
        }
    );
}

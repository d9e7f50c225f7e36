use nekoland_shell::focus::{
    focus_management_system, pointer_button_focus_system, visible_window_geometries,
    FocusCandidate, FocusHoverState, FocusSignals, FocusWindow,
};
use nekoland_shell::model::{WindowLayout, WindowMode};
use nekoland_shell::window_policy::WindowRole;

const UNASSIGNED: u32 = 0;

/// A visible window in stacking order: surface, rectangle, layout.
struct Placed {
    surface_id: u64,
    rect: (i32, i32, u32, u32),
    layout: WindowLayout,
}

fn pointer_in(rect: (i32, i32, u32, u32), x: f64, y: f64) -> bool {
    let left = f64::from(rect.0);
    let top = f64::from(rect.1);
    x >= left && x < left + f64::from(rect.2) && y >= top && y < top + f64::from(rect.3)
}

fn candidates(stack: &[Placed], x: f64, y: f64) -> Vec<FocusCandidate> {
    stack
        .iter()
        .map(|window| FocusCandidate {
            surface_id: window.surface_id,
            workspace: UNASSIGNED,
            layout: window.layout,
            under_pointer: pointer_in(window.rect, x, y),
        })
        .collect()
}

fn two_windows(layout: WindowLayout) -> Vec<Placed> {
    vec![
        Placed { surface_id: 11, rect: (0, 0, 120, 120), layout },
        Placed { surface_id: 22, rect: (40, 40, 120, 120), layout },
    ]
}

fn signals(focus_follows_mouse: bool) -> FocusSignals {
    FocusSignals {
        grabbed_surface: None,
        focus_follows_mouse,
        pointer_pan_active: false,
        pointer_output_animating: false,
    }
}

#[test]
fn clicking_visible_lower_window_raises_and_focuses_it() {
    let stack = candidates(&two_windows(WindowLayout::Floating), 10.0, 10.0);
    let mut focus = None;
    let raise = pointer_button_focus_system(true, &stack, None, &mut focus);
    assert_eq!(focus, Some(11));
    assert_eq!(raise, Some((UNASSIGNED, 11)));
}

#[test]
fn fallback_focus_uses_topmost_visible_window() {
    let stack = candidates(
        &[
            Placed { surface_id: 11, rect: (0, 0, 120, 120), layout: WindowLayout::Tiled },
            Placed { surface_id: 22, rect: (0, 0, 120, 120), layout: WindowLayout::Tiled },
        ],
        0.0,
        0.0,
    );
    let mut hover = FocusHoverState::default();
    let mut focus = None;
    focus_management_system(&stack, signals(false), &mut hover, &mut focus);
    assert_eq!(focus, Some(22));
}

#[test]
fn clicking_overlapping_windows_focuses_frontmost_window() {
    let stack = candidates(&two_windows(WindowLayout::Floating), 60.0, 60.0);
    let mut focus = None;
    let raise = pointer_button_focus_system(true, &stack, None, &mut focus);
    assert_eq!(focus, Some(22));
    assert_eq!(raise, Some((UNASSIGNED, 22)));
}

#[test]
fn clicking_uses_wayland_pointer_focus_surface_when_available() {
    let stack = candidates(
        &[
            Placed { surface_id: 11, rect: (120, 0, 120, 120), layout: WindowLayout::Floating },
            Placed { surface_id: 22, rect: (0, 0, 100, 100), layout: WindowLayout::Floating },
        ],
        130.0,
        10.0,
    );
    let mut focus = None;
    pointer_button_focus_system(true, &stack, Some(22), &mut focus);
    assert_eq!(focus, Some(22));
}

#[test]
fn focus_follows_mouse_ignores_floating_windows() {
    let stack = candidates(&two_windows(WindowLayout::Floating), 10.0, 10.0);
    let mut hover = FocusHoverState::default();
    let mut focus = Some(22);
    focus_management_system(&stack, signals(true), &mut hover, &mut focus);
    assert_eq!(focus, Some(22));
}

#[test]
fn focus_follows_mouse_targets_tiled_windows() {
    let stack = candidates(&two_windows(WindowLayout::Tiled), 10.0, 10.0);
    let mut hover = FocusHoverState::default();
    let mut focus = Some(22);
    focus_management_system(&stack, signals(true), &mut hover, &mut focus);
    assert_eq!(focus, Some(11));
}

#[test]
fn focus_follows_mouse_prefers_frontmost_overlapping_tiled_window() {
    let stack = candidates(&two_windows(WindowLayout::Tiled), 60.0, 60.0);
    let mut hover = FocusHoverState::default();
    let mut focus = None;
    focus_management_system(&stack, signals(true), &mut hover, &mut focus);
    assert_eq!(focus, Some(22));
}

#[test]
fn viewport_pointer_pan_blocks_hover_focus_changes() {
    let stack = candidates(&two_windows(WindowLayout::Tiled), 10.0, 10.0);
    let mut hover = FocusHoverState::default();
    let mut focus = Some(22);
    let mut panning = signals(true);
    panning.pointer_pan_active = true;
    focus_management_system(&stack, panning, &mut hover, &mut focus);
    assert_eq!(focus, Some(22));
}

#[test]
fn viewport_animation_blocks_hover_focus_changes_on_pointer_output() {
    let stack = candidates(&two_windows(WindowLayout::Tiled), 10.0, 10.0);
    let mut hover = FocusHoverState::default();
    let mut focus = Some(22);
    let mut animating = signals(true);
    animating.pointer_output_animating = true;
    focus_management_system(&stack, animating, &mut hover, &mut focus);
    assert_eq!(focus, Some(22));
}

#[test]
fn visible_grab_takes_focus_and_hover() {
    let stack = candidates(&two_windows(WindowLayout::Tiled), 500.0, 500.0);
    let mut hover = FocusHoverState::default();
    let mut focus = Some(22);
    let mut grabbing = signals(true);
    grabbing.grabbed_surface = Some(11);
    focus_management_system(&stack, grabbing, &mut hover, &mut focus);
    assert_eq!(focus, Some(11));
    assert_eq!(hover, FocusHoverState { initialized: true, hovered_surface: Some(11) });
}

#[test]
fn vanished_focus_falls_back_and_no_stack_changes_nothing() {
    let stack = candidates(&two_windows(WindowLayout::Floating), 500.0, 500.0);
    let mut hover = FocusHoverState::default();
    let mut focus = Some(99);
    focus_management_system(&stack, signals(false), &mut hover, &mut focus);
    assert_eq!(focus, Some(22));

    let mut untouched = Some(99);
    focus_management_system(&Vec::new(), signals(true), &mut hover, &mut untouched);
    assert_eq!(untouched, Some(99));

    let mut unchanged = Some(5);
    assert_eq!(pointer_button_focus_system(false, &stack, None, &mut unchanged), None);
    assert_eq!(unchanged, Some(5));
}

#[test]
fn only_visible_managed_windows_can_take_focus() {
    let window = |surface_id: u64, mode: WindowMode, visible: bool, helper: bool| FocusWindow {
        surface_id,
        mode,
        visible,
        role: WindowRole::Managed,
        helper_surface: helper,
        layout: WindowLayout::Floating,
        workspace: 1,
    };
    let windows = vec![
        window(1, WindowMode::Normal, true, false),
        window(2, WindowMode::Hidden, true, false),
        window(3, WindowMode::Normal, false, false),
        window(4, WindowMode::Normal, true, true),
        window(5, WindowMode::Maximized, true, false),
    ];
    let ids: Vec<u64> = visible_window_geometries(&windows).iter().map(|w| w.surface_id).collect();
    assert_eq!(ids, vec![1, 5]);
}

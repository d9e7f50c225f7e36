use nekoland_shell::model::{OutputViewport, WindowMode};
use nekoland_shell::window_policy::WindowRole;
use nekoland_shell::window_switcher::{
    candidate_title, fit_rect_within, next_candidate_index, switcher_candidates,
    visible_candidate_window, window_switcher_input_system, window_switcher_overlay_system,
    SwitcherAction, SwitcherContext, SwitcherInput, SwitcherWindow, WindowSwitcherCandidate,
    WindowSwitcherState,
};
use nekoland_shell::model::{OutputProperties, OutputRecord, RenderRect, WorkArea};

const OUTPUT_ID: u64 = 7;
const ORIGIN: OutputViewport = OutputViewport { origin_x: 100, origin_y: 200 };

fn window(surface_id: u64, title: &str) -> SwitcherWindow {
    SwitcherWindow {
        surface_id,
        workspace_id: Some(1),
        mode: WindowMode::Normal,
        role: WindowRole::Managed,
        helper_surface: false,
        title: title.to_owned(),
        app_id: format!("app.{surface_id}"),
        width: 200,
        height: 160,
    }
}

fn candidates() -> Vec<WindowSwitcherCandidate> {
    switcher_candidates(1, &vec![window(11, "back"), window(22, "front")], &vec![11, 22])
}

fn context() -> Option<SwitcherContext> {
    Some(SwitcherContext { workspace_id: 1, output_id: OUTPUT_ID, viewport: ORIGIN })
}

const ALT_TAB: SwitcherInput = SwitcherInput { hold_active: true, next_pressed: true, prev_pressed: false };
const ALT_SHIFT_TAB: SwitcherInput = SwitcherInput { hold_active: true, next_pressed: false, prev_pressed: true };
const RELEASE: SwitcherInput = SwitcherInput { hold_active: false, next_pressed: false, prev_pressed: false };

#[test]
fn alt_tab_starts_session_and_queues_preview_for_next_window() {
    let mut state = WindowSwitcherState::default();
    let actions = window_switcher_input_system(&mut state, ALT_TAB, Some(22), context(), &candidates());
    assert!(state.active);
    assert_eq!(state.anchor_surface, Some(22));
    assert_eq!(state.selected_surface, Some(11));
    assert_eq!(state.origin_output_id, Some(OUTPUT_ID));
    assert_eq!(state.origin_viewport, Some(ORIGIN));
    assert_eq!(actions, vec![SwitcherAction::CenterViewportOn { output_id: OUTPUT_ID, surface_id: 11 }]);
}

#[test]
fn releasing_alt_focuses_the_newly_selected_window() {
    let mut state = WindowSwitcherState::default();
    window_switcher_input_system(&mut state, ALT_TAB, Some(22), context(), &candidates());
    let actions = window_switcher_input_system(&mut state, RELEASE, Some(22), context(), &candidates());
    assert!(!state.active);
    assert_eq!(actions, vec![SwitcherAction::Focus { surface_id: 11 }]);
}

#[test]
fn returning_to_anchor_restores_the_original_viewport_on_release() {
    let mut state = WindowSwitcherState::default();
    window_switcher_input_system(&mut state, ALT_TAB, Some(22), context(), &candidates());
    window_switcher_input_system(&mut state, ALT_SHIFT_TAB, Some(22), context(), &candidates());
    assert!(state.active);
    assert_eq!(state.selected_surface, Some(22));
    let actions = window_switcher_input_system(&mut state, RELEASE, Some(22), context(), &candidates());
    assert!(!state.active);
    assert_eq!(actions, vec![SwitcherAction::MoveViewport { output_id: OUTPUT_ID, x: 100, y: 200 }]);
}

#[test]
fn switcher_overlay_emits_live_surface_thumbnails() {
    let mut state = WindowSwitcherState::default();
    window_switcher_input_system(&mut state, ALT_TAB, Some(22), context(), &candidates());
    let (output_id, layout) = window_switcher_overlay_system(&state, &vec![origin_output()], &candidates())
        .expect("switcher overlay should target the origin output");
    assert_eq!(output_id, OUTPUT_ID);
    assert!(layout.rows.iter().any(|row| row.surface_id == 11));
    let selected = layout.rows.iter().find(|row| row.surface_id == 11).expect("selected row");
    assert!(selected.highlighted);
}

#[test]
fn candidates_run_front_to_back_and_skip_ineligible_windows() {
    let mut hidden = window(33, "hidden");
    hidden.mode = WindowMode::Hidden;
    let mut elsewhere = window(44, "elsewhere");
    elsewhere.workspace_id = Some(2);
    let list = switcher_candidates(1, &vec![window(11, "a"), window(22, "b"), hidden, elsewhere], &vec![11, 22, 33, 44]);
    let ids: Vec<u64> = list.iter().map(|candidate| candidate.surface_id).collect();
    assert_eq!(ids, vec![22, 11]);
}

#[test]
fn cycling_wraps_around_and_back() {
    let list = candidates();
    assert_eq!(next_candidate_index(Some(22), None, &list, false), 1);
    assert_eq!(next_candidate_index(Some(11), None, &list, false), 0);
    assert_eq!(next_candidate_index(Some(22), None, &list, true), 1);
}

#[test]
fn visible_window_keeps_the_selection_in_view() {
    assert_eq!(visible_candidate_window(3, 2), (0, 3));
    let (start, end) = visible_candidate_window(20, 15);
    assert!(start <= 15 && 15 < end);
    assert_eq!(end - start, 7);
}

#[test]
fn thumbnails_keep_their_aspect_ratio_inside_the_frame() {
    let frame = RenderRect { x: 10, y: 20, width: 100, height: 100 };
    let fitted = fit_rect_within(frame, 200, 100);
    assert_eq!((fitted.width, fitted.height), (100, 50));
    assert_eq!((fitted.x, fitted.y), (10, 45));
}

#[test]
fn untitled_candidates_get_a_window_label() {
    let candidate = WindowSwitcherCandidate { surface_id: 42, title: String::new(), app_id: String::new(), width: 1, height: 1 };
    assert_eq!(candidate_title(&candidate), "Window 42");
}

#[test]
fn thumbnails_fit_frames_whose_centred_origin_fits() {
    let frame = RenderRect { x: i32::MAX - 5, y: 0, width: 10, height: 10 };
    assert_eq!(fit_rect_within(frame, 10, 10), frame);
    let frame = RenderRect { x: 0, y: 0, width: 96, height: 54 };
    assert_eq!(fit_rect_within(frame, 200, 160), RenderRect { x: 14, y: 0, width: 67, height: 54 });
}

#[test]
fn untitled_labels_render_the_whole_decimal_id() {
    let candidate = WindowSwitcherCandidate { surface_id: u64::MAX, title: String::new(), app_id: String::new(), width: 1, height: 1 };
    assert_eq!(candidate_title(&candidate), "Window 18446744073709551615");
    let candidate = WindowSwitcherCandidate { surface_id: 0, title: String::new(), app_id: String::new(), width: 1, height: 1 };
    assert_eq!(candidate_title(&candidate), "Window 0");
}

fn origin_output() -> OutputRecord {
    OutputRecord {
        id: OUTPUT_ID,
        name: "Virtual-1".to_owned(),
        properties: OutputProperties { width: 1280, height: 720 },
        viewport: ORIGIN,
        work_area: WorkArea { x: 0, y: 0, width: 1280, height: 720 },
        current_workspace: Some(1),
    }
}

#[test]
fn switcher_overlay_draws_nothing_without_an_active_session_or_origin_output() {
    let idle = WindowSwitcherState::default();
    assert!(window_switcher_overlay_system(&idle, &vec![origin_output()], &candidates()).is_none());
    let mut state = WindowSwitcherState::default();
    window_switcher_input_system(&mut state, ALT_TAB, Some(22), context(), &candidates());
    assert!(window_switcher_overlay_system(&state, &Vec::new(), &candidates()).is_none());
    assert!(window_switcher_overlay_system(&state, &vec![origin_output()], &Vec::new()).is_none());
    assert!(window_switcher_overlay_system(&state, &vec![origin_output()], &candidates()).is_some());
}

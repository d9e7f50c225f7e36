//! Alt+Tab style window switcher: candidate ordering, selection cycling, session lifecycle, and
//! overlay geometry.

#[allow(unused_imports)]
use vstd::prelude::*;

use crate::geometry::{find_output_by_id, has_output_id};
use crate::model::{OutputRecord, OutputViewport, RenderRect, WindowMode};
use crate::search::{first_index, lemma_first_index_bounds};
use crate::window_policy::WindowRole;
use crate::shortcuts::{has_id, ids_unique, register_builtin, ShortcutRegistry, ShortcutTrigger, ShortcutView};

verus! {

/// Most candidates the overlay lists at once.
pub const MAX_VISIBLE_SWITCHER_ITEMS: usize = 7;

/// Session state of the window switcher.
#[derive(Clone, Debug, Default, PartialEq, Eq)]
pub struct WindowSwitcherState {
    /// Whether a switcher session is currently active.
    pub active: bool,
    /// Workspace whose windows are being cycled.
    pub workspace_id: Option<u32>,
    /// Surface that held keyboard focus when the session began.
    pub anchor_surface: Option<u64>,
    /// Current candidate index within the front-to-back candidate list.
    pub selected_index: usize,
    /// Surface currently selected.
    pub selected_surface: Option<u64>,
    /// Surface most recently previewed through viewport centring.
    pub preview_surface: Option<u64>,
    /// Surface committed when the session ended on a different window.
    pub committed_surface: Option<u64>,
    /// Output whose viewport is used for preview and restore.
    pub origin_output_id: Option<u64>,
    /// Viewport origin captured when the session started.
    pub origin_viewport: Option<OutputViewport>,
}

impl WindowSwitcherState {
    /// Starts a session on `workspace_id`, remembering the anchor and the origin viewport.
    pub fn begin_session(
        &mut self,
        workspace_id: u32,
        anchor_surface: Option<u64>,
        origin_output_id: u64,
        origin_viewport: OutputViewport,
    )
        ensures
            *final(self) == (WindowSwitcherState {
                active: true,
                workspace_id: Some(workspace_id),
                anchor_surface,
                selected_index: 0,
                selected_surface: None,
                preview_surface: None,
                committed_surface: None,
                origin_output_id: Some(origin_output_id),
                origin_viewport: Some(origin_viewport),
            }),
    {
        self.active = true;
        self.workspace_id = Some(workspace_id);
        self.anchor_surface = anchor_surface;
        self.selected_index = 0;
        self.selected_surface = None;
        self.preview_surface = None;
        self.committed_surface = None;
        self.origin_output_id = Some(origin_output_id);
        self.origin_viewport = Some(origin_viewport);
    }

    /// Ends the session; only the committed surface survives.
    pub fn end_session(&mut self)
        ensures
            *final(self) == (WindowSwitcherState {
                active: false,
                workspace_id: None,
                anchor_surface: None,
                selected_index: 0,
                selected_surface: None,
                preview_surface: None,
                committed_surface: old(self).committed_surface,
                origin_output_id: None,
                origin_viewport: None,
            }),
    {
        self.active = false;
        self.workspace_id = None;
        self.anchor_surface = None;
        self.selected_index = 0;
        self.selected_surface = None;
        self.preview_surface = None;
        self.origin_output_id = None;
        self.origin_viewport = None;
    }
}

/// One window the switcher can select.
#[derive(Clone, Debug, PartialEq, Eq)]
pub struct WindowSwitcherCandidate {
    pub surface_id: u64,
    pub title: String,
    pub app_id: String,
    pub width: u32,
    pub height: u32,
}

/// Index of the first candidate showing `surface`.
pub open spec fn position_of(candidates: Seq<WindowSwitcherCandidate>, surface: u64) -> Option<int> {
    crate::search::first_index(candidates, shows_surface(surface))
}

/// Candidate showing `surface`.
pub open spec fn shows_surface(surface: u64) -> spec_fn(WindowSwitcherCandidate) -> bool {
    |candidate: WindowSwitcherCandidate| candidate.surface_id == surface
}

/// Candidate index that cycling from `current` selects (forward or, with `reverse`, backward,
/// wrapping around); without a current index, forward starts at the front and backward at the
/// back.
pub open spec fn cycled_index(current: Option<int>, count: int, reverse: bool) -> int {
    match current {
        Some(index) => if reverse {
            if index == 0 {
                count - 1
            } else {
                index - 1
            }
        } else {
            (index + 1) % count
        },
        None => if reverse {
            count - 1
        } else {
            0
        },
    }
}

/// Index that the next cycling step selects: it moves from the selected surface, or from the
/// anchor before anything was selected.
pub open spec fn next_index_spec(
    anchor_surface: Option<u64>,
    current_selected: Option<u64>,
    candidates: Seq<WindowSwitcherCandidate>,
    reverse: bool,
) -> int {
    if candidates.len() == 0 {
        0
    } else {
        let from = if current_selected is Some {
            current_selected
        } else {
            anchor_surface
        };
        let current = match from {
            Some(surface) => position_of(candidates, surface),
            None => None,
        };
        cycled_index(current, candidates.len() as int, reverse)
    }
}

fn find_candidate(candidates: &Vec<WindowSwitcherCandidate>, surface: u64) -> (result: Option<
    usize,
>)
    ensures
        match result {
            Some(i) => position_of(candidates@, surface) == Some(i as int),
            None => position_of(candidates@, surface) is None,
        },
{
    let mut i: usize = 0;
    while i < candidates.len()
        invariant
            i <= candidates.len(),
            position_of(candidates@, surface) == crate::search::first_index_from(
                candidates@,
                shows_surface(surface),
                i as int,
            ),
        decreases candidates.len() - i,
    {
        if candidates[i].surface_id == surface {
            return Some(i);
        }
        i += 1;
    }
    None
}

/// Picks the candidate index that the next cycling step selects.
pub fn next_candidate_index(
    anchor_surface: Option<u64>,
    current_selected: Option<u64>,
    candidates: &Vec<WindowSwitcherCandidate>,
    reverse: bool,
) -> (index: usize)
    ensures
        index == next_index_spec(anchor_surface, current_selected, candidates@, reverse),
        candidates.len() > 0 ==> index < candidates.len(),
{
    let candidate_count = candidates.len();
    if candidate_count == 0 {
        return 0;
    }
    let from = if current_selected.is_some() {
        current_selected
    } else {
        anchor_surface
    };
    let current_index = match from {
        Some(surface) => find_candidate(candidates, surface),
        None => None,
    };
    proof {
        if let Some(surface) = from {
            crate::search::lemma_first_index_bounds(candidates@, shows_surface(surface), 0);
        }
    }
    match current_index {
        Some(index) => if reverse {
            if index == 0 {
                candidate_count - 1
            } else {
                index - 1
            }
        } else {
            (index + 1) % candidate_count
        },
        None => if reverse {
            candidate_count - 1
        } else {
            0
        },
    }
}

/// Cycling forward and then backward from a listed surface returns to it.
pub proof fn law_cycle_forward_then_back(index: int, count: int)
    requires
        0 <= index < count,
    ensures
        cycled_index(Some(cycled_index(Some(index), count, false)), count, true) == index,
        cycled_index(Some(cycled_index(Some(index), count, true)), count, false) == index,
        0 <= cycled_index(Some(index), count, false) < count,
        0 <= cycled_index(Some(index), count, true) < count,
{
    if index + 1 < count {
        assert((index + 1) % count == index + 1) by (nonlinear_arith)
            requires
                0 <= index + 1 < count,
        ;
    } else {
        assert((index + 1) % count == 0) by (nonlinear_arith)
            requires
                index + 1 == count,
                count > 0,
        ;
    }
    if index == 0 {
        assert((count - 1 + 1) % count == 0) by (nonlinear_arith)
            requires
                count > 0,
        ;
    } else {
        assert((index - 1 + 1) % count == index) by (nonlinear_arith)
            requires
                0 < index < count,
        ;
    }
}

/// Window of at most seven consecutive candidates that keeps the selection visible, centred
/// where possible.
pub open spec fn visible_window_spec(candidate_count: int, selected_index: int) -> (int, int) {
    if candidate_count <= 7 {
        (0, candidate_count)
    } else {
        let start = if selected_index >= 3 {
            selected_index - 3
        } else {
            0
        };
        if start + 7 > candidate_count {
            (candidate_count - 7, candidate_count)
        } else {
            (start, start + 7)
        }
    }
}

/// Range `[start, end)` of candidates that the overlay shows.
pub fn visible_candidate_window(candidate_count: usize, selected_index: usize) -> (range: (
    usize,
    usize,
))
    ensures
        range.0 == visible_window_spec(candidate_count as int, selected_index as int).0,
        range.1 == visible_window_spec(candidate_count as int, selected_index as int).1,
{
    if candidate_count <= MAX_VISIBLE_SWITCHER_ITEMS {
        return (0, candidate_count);
    }
    let half = MAX_VISIBLE_SWITCHER_ITEMS / 2;
    let mut start = if selected_index >= half {
        selected_index - half
    } else {
        0
    };
    let mut end: usize;
    if start > candidate_count - MAX_VISIBLE_SWITCHER_ITEMS {
        end = candidate_count;
        start = end - MAX_VISIBLE_SWITCHER_ITEMS;
    } else {
        end = start + MAX_VISIBLE_SWITCHER_ITEMS;
    }
    (start, end)
}

/// The visible range is in bounds, holds `min(count, 7)` candidates, and contains the selection
/// whenever the selection is a valid index.
pub proof fn law_visible_window_contains_selection(candidate_count: int, selected_index: int)
    requires
        0 <= selected_index < candidate_count,
    ensures
        ({
            let (start, end) = visible_window_spec(candidate_count, selected_index);
            &&& 0 <= start <= selected_index < end <= candidate_count
            &&& end - start == if candidate_count < 7 {
                candidate_count
            } else {
                7
            }
        }),
{
}

/// One window as the switcher filters it.
#[derive(Clone, Debug)]
pub struct SwitcherWindow {
    pub surface_id: u64,
    pub workspace_id: Option<u32>,
    pub mode: WindowMode,
    pub role: WindowRole,
    pub helper_surface: bool,
    pub title: String,
    pub app_id: String,
    pub width: u32,
    pub height: u32,
}

/// Whether a window can be cycled to inside `workspace_id`.
pub open spec fn eligible(window: SwitcherWindow, workspace_id: u32) -> bool {
    &&& window.mode != WindowMode::Hidden
    &&& window.role == WindowRole::Managed
    &&& !window.helper_surface
    &&& window.workspace_id == Some(workspace_id)
}

/// Candidate built from a window: sizes of zero count as one.
pub open spec fn candidate_of(window: SwitcherWindow) -> WindowSwitcherCandidate {
    WindowSwitcherCandidate {
        surface_id: window.surface_id,
        title: window.title,
        app_id: window.app_id,
        width: if window.width == 0 {
            1
        } else {
            window.width
        },
        height: if window.height == 0 {
            1
        } else {
            window.height
        },
    }
}

/// Last index of an eligible window with the given surface.
pub open spec fn last_eligible(windows: Seq<SwitcherWindow>, workspace_id: u32, surface: u64, end: int) -> Option<int>
    decreases end,
{
    if end <= 0 {
        None
    } else if eligible(windows[end - 1], workspace_id) && windows[end - 1].surface_id == surface {
        Some(end - 1)
    } else {
        last_eligible(windows, workspace_id, surface, end - 1)
    }
}

/// Candidates, front-most first: the stacking order reversed, each eligible surface once, taken
/// from the last window record carrying it.
pub open spec fn candidates_spec(
    windows: Seq<SwitcherWindow>,
    workspace_id: u32,
    back_to_front: Seq<u64>,
    taken: int,
) -> Seq<WindowSwitcherCandidate>
    decreases taken,
{
    if taken <= 0 {
        Seq::empty()
    } else {
        let surface = back_to_front[back_to_front.len() - taken];
        let earlier = candidates_spec(windows, workspace_id, back_to_front, taken - 1);
        let seen = exists|k: int|
            back_to_front.len() - taken < k < back_to_front.len() && back_to_front[k] == surface;
        match last_eligible(windows, workspace_id, surface, windows.len() as int) {
            Some(i) if !seen => earlier.push(candidate_of(windows[i])),
            _ => earlier,
        }
    }
}

fn copy_candidate(window: &SwitcherWindow) -> (candidate: WindowSwitcherCandidate)
    ensures
        candidate == candidate_of(*window),
{
    WindowSwitcherCandidate {
        surface_id: window.surface_id,
        title: window.title.clone(),
        app_id: window.app_id.clone(),
        width: if window.width == 0 {
            1
        } else {
            window.width
        },
        height: if window.height == 0 {
            1
        } else {
            window.height
        },
    }
}

fn find_last_eligible(windows: &Vec<SwitcherWindow>, workspace_id: u32, surface: u64) -> (result:
    Option<usize>)
    ensures
        match result {
            Some(i) => last_eligible(windows@, workspace_id, surface, windows@.len() as int) == Some(
                i as int,
            ) && i < windows.len(),
            None => last_eligible(windows@, workspace_id, surface, windows@.len() as int) is None,
        },
{
    let mut end = windows.len();
    while end > 0
        invariant
            end <= windows.len(),
            last_eligible(windows@, workspace_id, surface, windows@.len() as int) == last_eligible(
                windows@,
                workspace_id,
                surface,
                end as int,
            ),
        decreases end,
    {
        let window = &windows[end - 1];
        if window.mode != WindowMode::Hidden && window.role == WindowRole::Managed
            && !window.helper_surface && window.workspace_id == Some(workspace_id)
            && window.surface_id == surface {
            return Some(end - 1);
        }
        end -= 1;
    }
    None
}

fn seen_later(order: &Vec<u64>, index: usize, surface: u64) -> (result: bool)
    requires
        index < order.len(),
    ensures
        result == exists|k: int| index < k < order@.len() && order@[k] == surface,
{
    let mut k = index + 1;
    while k < order.len()
        invariant
            index < k <= order.len(),
            forall|j: int| index < j < k ==> order@[j] != surface,
        decreases order.len() - k,
    {
        if order[k] == surface {
            return true;
        }
        k += 1;
    }
    false
}

/// Builds the switcher candidates of `workspace_id`, front-most first, from the workspace's
/// stacking order (back to front).
pub fn switcher_candidates(
    workspace_id: u32,
    windows: &Vec<SwitcherWindow>,
    back_to_front: &Vec<u64>,
) -> (candidates: Vec<WindowSwitcherCandidate>)
    ensures
        candidates@ == candidates_spec(
            windows@,
            workspace_id,
            back_to_front@,
            back_to_front@.len() as int,
        ),
{
    let mut candidates: Vec<WindowSwitcherCandidate> = Vec::new();
    let mut taken: usize = 0;
    while taken < back_to_front.len()
        invariant
            taken <= back_to_front.len(),
            candidates@ == candidates_spec(windows@, workspace_id, back_to_front@, taken as int),
        decreases back_to_front.len() - taken,
    {
        let index = back_to_front.len() - 1 - taken;
        let surface = back_to_front[index];
        let seen = seen_later(back_to_front, index, surface);
        if !seen {
            match find_last_eligible(windows, workspace_id, surface) {
                Some(i) => {
                    candidates.push(copy_candidate(&windows[i]));
                },
                None => {},
            }
        }
        taken += 1;
    }
    candidates
}

/// Input that drives one switcher tick.
#[derive(Clone, Copy, Debug, PartialEq, Eq)]
pub struct SwitcherInput {
    /// The hold key (Alt) is down.
    pub hold_active: bool,
    /// Cycle-next was just pressed.
    pub next_pressed: bool,
    /// Cycle-previous was just pressed.
    pub prev_pressed: bool,
}

/// Where a new session would start: workspace, output, and that output's viewport.
#[derive(Clone, Copy, Debug, PartialEq, Eq)]
pub struct SwitcherContext {
    pub workspace_id: u32,
    pub output_id: u64,
    pub viewport: OutputViewport,
}

/// Request the switcher hands to the output/window control pipelines.
#[derive(Clone, Copy, Debug, PartialEq, Eq)]
pub enum SwitcherAction {
    /// Centre the output's viewport on a surface (preview).
    CenterViewportOn { output_id: u64, surface_id: u64 },
    /// Focus a surface.
    Focus { surface_id: u64 },
    /// Move the output's viewport back to an origin.
    MoveViewport { output_id: u64, x: isize, y: isize },
}

/// The switcher after its session ended, keeping `committed` as the committed surface.
pub open spec fn ended_state(committed: Option<u64>) -> WindowSwitcherState {
    WindowSwitcherState {
        active: false,
        workspace_id: None,
        anchor_surface: None,
        selected_index: 0,
        selected_surface: None,
        preview_surface: None,
        committed_surface: committed,
        origin_output_id: None,
        origin_viewport: None,
    }
}

/// Surface a session ends on: the selection, else the anchor.
pub open spec fn session_choice(s: WindowSwitcherState) -> Option<u64> {
    if s.selected_surface is Some {
        s.selected_surface
    } else {
        s.anchor_surface
    }
}

/// Whether ending the session commits to a different window than the anchor.
pub open spec fn session_commits(s: WindowSwitcherState) -> bool {
    session_choice(s) is Some && session_choice(s) != s.anchor_surface
}

/// Ending a session on release: the chosen window is focused and recorded as committed when it
/// differs from the anchor; otherwise the origin output's viewport moves back to where the
/// session started. The session state is cleared either way.
pub open spec fn released(s: WindowSwitcherState) -> (WindowSwitcherState, Seq<SwitcherAction>) {
    if session_commits(s) {
        (ended_state(session_choice(s)), seq![SwitcherAction::Focus { surface_id: session_choice(s)->0 }])
    } else {
        (
            ended_state(s.committed_surface),
            match (s.origin_output_id, s.origin_viewport) {
                (Some(output_id), Some(viewport)) => seq![
                    SwitcherAction::MoveViewport {
                        output_id,
                        x: viewport.origin_x,
                        y: viewport.origin_y,
                    },
                ],
                _ => seq![],
            },
        )
    }
}

/// Selecting candidate `index`: it becomes the selection and the preview, and the origin output
/// centres on it unless it is already previewed.
pub open spec fn selected_at(
    s: WindowSwitcherState,
    candidates: Seq<WindowSwitcherCandidate>,
    index: int,
) -> (WindowSwitcherState, Seq<SwitcherAction>) {
    let surface = candidates[index].surface_id;
    (
        WindowSwitcherState {
            selected_index: index as usize,
            selected_surface: Some(surface),
            preview_surface: Some(surface),
            ..s
        },
        if s.preview_surface == Some(surface) {
            seq![]
        } else {
            match s.origin_output_id {
                Some(output_id) => seq![SwitcherAction::CenterViewportOn { output_id, surface_id: surface }],
                None => seq![],
            }
        },
    )
}

/// The cycling part of a tick of an active session: a cycle key selects the next (or previous)
/// candidate, or ends the session when there is no workspace or no candidate.
pub open spec fn cycled(
    s: WindowSwitcherState,
    input: SwitcherInput,
    candidates: Seq<WindowSwitcherCandidate>,
) -> (WindowSwitcherState, Seq<SwitcherAction>) {
    if !(input.next_pressed || input.prev_pressed) {
        (s, seq![])
    } else if s.workspace_id is None || candidates.len() == 0 {
        (ended_state(s.committed_surface), seq![])
    } else {
        selected_at(
            s,
            candidates,
            next_index_spec(s.anchor_surface, s.selected_surface, candidates, input.prev_pressed),
        )
    }
}

/// A tick of an active session: cycling, then, when the hold key is up and the session is still
/// active, ending it (see [`released`]).
pub open spec fn active_tick(
    s: WindowSwitcherState,
    input: SwitcherInput,
    candidates: Seq<WindowSwitcherCandidate>,
) -> (WindowSwitcherState, Seq<SwitcherAction>) {
    let (mid, actions) = cycled(s, input, candidates);
    if mid.active && !input.hold_active {
        let (after, more) = released(mid);
        (after, actions + more)
    } else {
        (mid, actions)
    }
}

/// Selects `candidates[next_index]` and queues a preview unless it is already previewed.
fn apply_switcher_selection(
    next_index: usize,
    candidates: &Vec<WindowSwitcherCandidate>,
    switcher: &mut WindowSwitcherState,
    actions: &mut Vec<SwitcherAction>,
)
    ensures
        next_index >= candidates.len() ==> *final(switcher) == *old(switcher) && final(actions)@
            == old(actions)@,
        next_index < candidates.len() ==> {
            let surface = candidates@[next_index as int].surface_id;
            &&& *final(switcher) == (WindowSwitcherState {
                selected_index: next_index,
                selected_surface: Some(surface),
                preview_surface: Some(surface),
                ..*old(switcher)
            })
            &&& final(actions)@ == if old(switcher).preview_surface == Some(surface) {
                old(actions)@
            } else {
                match old(switcher).origin_output_id {
                    Some(output_id) => old(actions)@.push(
                        SwitcherAction::CenterViewportOn { output_id, surface_id: surface },
                    ),
                    None => old(actions)@,
                }
            }
        },
{
    if next_index >= candidates.len() {
        return ;
    }
    let selected_surface = candidates[next_index].surface_id;
    switcher.selected_index = next_index;
    switcher.selected_surface = Some(selected_surface);
    if switcher.preview_surface == Some(selected_surface) {
        return ;
    }
    if let Some(output_id) = switcher.origin_output_id {
        actions.push(SwitcherAction::CenterViewportOn { output_id, surface_id: selected_surface });
    }
    switcher.preview_surface = Some(selected_surface);
}

/// Ends the session: focuses the selection when it differs from the anchor, otherwise moves the
/// viewport back to where the session started.
fn finalize_window_switcher_session(
    switcher: &mut WindowSwitcherState,
    actions: &mut Vec<SwitcherAction>,
)
    ensures
        *final(switcher) == released(*old(switcher)).0,
        final(actions)@ == old(actions)@ + released(*old(switcher)).1,
{
    let final_selected = if switcher.selected_surface.is_some() {
        switcher.selected_surface
    } else {
        switcher.anchor_surface
    };
    let mut restore_origin = true;
    if let Some(surface_id) = final_selected {
        if final_selected != switcher.anchor_surface {
            actions.push(SwitcherAction::Focus { surface_id });
            switcher.committed_surface = Some(surface_id);
            restore_origin = false;
        }
    }
    if restore_origin {
        if let (Some(output_id), Some(origin_viewport)) = (
            switcher.origin_output_id,
            switcher.origin_viewport,
        ) {
            actions.push(
                SwitcherAction::MoveViewport {
                    output_id,
                    x: origin_viewport.origin_x,
                    y: origin_viewport.origin_y,
                },
            );
        }
    }
    switcher.end_session();
}

/// One tick of the switcher from the key state.
///
/// `candidates` are the front-to-back candidates of the session's workspace while a session is
/// active, or of `context`'s workspace otherwise; `focused_surface` is the current keyboard focus.
/// While active, a cycle key advances the selection and releasing the hold key ends the session.
/// While inactive, a cycle key with the hold key down starts a session on `context` (when there is
/// one and it has candidates) and selects the next candidate after the focused surface.
pub fn window_switcher_input_system(
    switcher: &mut WindowSwitcherState,
    input: SwitcherInput,
    focused_surface: Option<u64>,
    context: Option<SwitcherContext>,
    candidates: &Vec<WindowSwitcherCandidate>,
) -> (actions: Vec<SwitcherAction>)
    ensures
        old(switcher).active ==> *final(switcher) == active_tick(*old(switcher), input, candidates@).0
            && actions@ == active_tick(*old(switcher), input, candidates@).1,
        old(switcher).active && !input.hold_active ==> !final(switcher).active,
        !old(switcher).active && !((input.next_pressed || input.prev_pressed) && input.hold_active)
            ==> *final(switcher) == *old(switcher) && actions@.len() == 0,
        !old(switcher).active && (input.next_pressed || input.prev_pressed) && input.hold_active
            && (context is None || candidates@.len() == 0) ==> *final(switcher) == *old(switcher)
            && actions@.len() == 0,
        !old(switcher).active && (input.next_pressed || input.prev_pressed) && input.hold_active
            && context is Some && candidates@.len() > 0 ==> {
            let index = next_index_spec(focused_surface, None, candidates@, input.prev_pressed);
            let surface = candidates@[index].surface_id;
            &&& final(switcher).active
            &&& final(switcher).workspace_id == Some(context->0.workspace_id)
            &&& final(switcher).anchor_surface == focused_surface
            &&& final(switcher).selected_index == index
            &&& final(switcher).selected_surface == Some(surface)
            &&& final(switcher).preview_surface == Some(surface)
            &&& final(switcher).origin_output_id == Some(context->0.output_id)
            &&& final(switcher).origin_viewport == Some(context->0.viewport)
            &&& actions@ == seq![
                SwitcherAction::CenterViewportOn {
                    output_id: context->0.output_id,
                    surface_id: surface,
                },
            ]
        },
        old(switcher).active && input.hold_active && (input.next_pressed || input.prev_pressed)
            && old(switcher).workspace_id is Some && candidates@.len() > 0 ==> {
            let index = next_index_spec(
                old(switcher).anchor_surface,
                old(switcher).selected_surface,
                candidates@,
                input.prev_pressed,
            );
            &&& final(switcher).active
            &&& final(switcher).selected_index == index
            &&& final(switcher).selected_surface == Some(candidates@[index].surface_id)
        },
        old(switcher).active && (input.next_pressed || input.prev_pressed) && (old(
            switcher,
        ).workspace_id is None || candidates@.len() == 0) ==> !final(switcher).active,
{
    let reverse = input.prev_pressed;
    let mut actions: Vec<SwitcherAction> = Vec::new();
    if switcher.active {
        if input.next_pressed || input.prev_pressed {
            if switcher.workspace_id.is_none() || candidates.len() == 0 {
                switcher.end_session();
            } else {
                let next_index = next_candidate_index(
                    switcher.anchor_surface,
                    switcher.selected_surface,
                    candidates,
                    reverse,
                );
                apply_switcher_selection(next_index, candidates, switcher, &mut actions);
            }
        }
        if !input.hold_active && switcher.active {
            finalize_window_switcher_session(switcher, &mut actions);
        }
        return actions;
    }
    if !(input.next_pressed || input.prev_pressed) || !input.hold_active {
        return actions;
    }
    let context = match context {
        Some(context) => context,
        None => return actions,
    };
    if candidates.len() == 0 {
        return actions;
    }
    switcher.begin_session(
        context.workspace_id,
        focused_surface,
        context.output_id,
        context.viewport,
    );
    let next_index = next_candidate_index(focused_surface, None, candidates, reverse);
    apply_switcher_selection(next_index, candidates, switcher, &mut actions);
    actions
}


/// Size of `content` scaled to fit the frame while keeping its aspect ratio (computed in 64-bit
/// integers and narrowed to `u32` as the overlay does).
pub open spec fn fitted_size(frame_width: u32, frame_height: u32, content_width: u32, content_height: u32) -> (u32, u32) {
    let cw: int = if content_width == 0 { 1 } else { content_width as int };
    let ch: int = if content_height == 0 { 1 } else { content_height as int };
    let width_limited_height = ((frame_width as int * ch) / cw) as u32;
    if width_limited_height <= frame_height {
        (frame_width, if width_limited_height == 0 { 1 } else { width_limited_height })
    } else {
        let height_limited_width = ((frame_height as int * cw) / ch) as u32;
        (if height_limited_width == 0 { 1 } else { height_limited_width }, frame_height)
    }
}

/// Whether the centred origin of `content` fitted into `frame` lies inside `i32`.
pub open spec fn centred_origin_fits(frame: RenderRect, content_width: u32, content_height: u32) -> bool {
    let (w, h) = fitted_size(frame.width, frame.height, content_width, content_height);
    &&& frame.x + (frame.width - w) / 2 <= i32::MAX
    &&& frame.y + (frame.height - h) / 2 <= i32::MAX
}

/// `content` fitted into `frame`, centred; an empty frame is returned unchanged.
pub open spec fn fitted_rect(frame: RenderRect, content_width: u32, content_height: u32) -> RenderRect {
    if frame.width == 0 || frame.height == 0 {
        frame
    } else {
        let (w, h) = fitted_size(frame.width, frame.height, content_width, content_height);
        RenderRect {
            x: (frame.x + (frame.width - w) / 2) as i32,
            y: (frame.y + (frame.height - h) / 2) as i32,
            width: w,
            height: h,
        }
    }
}

proof fn lemma_height_limited_width_fits(fw: int, fh: int, cw: int, ch: int)
    requires
        fw >= 0,
        fh >= 0,
        cw >= 1,
        ch >= 1,
        (fw * ch) / cw > fh,
    ensures
        (fh * cw) / ch <= fw,
{
    assert(fw * ch >= (fh + 1) * cw) by (nonlinear_arith)
        requires
            (fw * ch) / cw > fh,
            cw >= 1,
    ;
    assert(fh * cw < fw * ch) by (nonlinear_arith)
        requires
            fw * ch >= (fh + 1) * cw,
            cw >= 1,
            fh >= 0,
    ;
    assert((fh * cw) / ch <= fw) by (nonlinear_arith)
        requires
            fh * cw < fw * ch,
            ch >= 1,
            fh >= 0,
            cw >= 1,
    ;
}

/// The fitted size never exceeds the frame.
pub proof fn law_fitted_size_within_frame(frame_width: u32, frame_height: u32, content_width: u32, content_height: u32)
    requires
        frame_width > 0,
        frame_height > 0,
    ensures
        1 <= fitted_size(frame_width, frame_height, content_width, content_height).0 <= frame_width,
        1 <= fitted_size(frame_width, frame_height, content_width, content_height).1 <= frame_height,
{
    let cw: int = if content_width == 0 { 1 } else { content_width as int };
    let ch: int = if content_height == 0 { 1 } else { content_height as int };
    let whl = ((frame_width as int * ch) / cw) as u32;
    if whl > frame_height {
        assert(frame_width as int * ch / cw >= 0) by (nonlinear_arith)
            requires
                frame_width >= 0,
                ch >= 1,
                cw >= 1,
        ;
        if frame_width as int * ch / cw <= u32::MAX {
            assert(((frame_width as int * ch) / cw) as u32 == (frame_width as int * ch) / cw);
        }
        lemma_height_limited_width_fits(frame_width as int, frame_height as int, cw, ch);
        assert((frame_height as int * cw) / ch >= 0) by (nonlinear_arith)
            requires
                frame_height >= 0,
                ch >= 1,
                cw >= 1,
        ;
        assert(((frame_height as int * cw) / ch) as u32 == (frame_height as int * cw) / ch);
    }
}

/// Fits a content size into a frame, preserving aspect ratio and centring the result.
pub fn fit_rect_within(frame: RenderRect, content_width: u32, content_height: u32) -> (result: RenderRect)
    requires
        frame.width <= i32::MAX,
        frame.height <= i32::MAX,
        frame.width > 0 && frame.height > 0 ==> centred_origin_fits(frame, content_width, content_height),
    ensures
        result == fitted_rect(frame, content_width, content_height),
{
    if frame.width == 0 || frame.height == 0 {
        return frame;
    }
    let content_width: u32 = if content_width == 0 { 1 } else { content_width };
    let content_height: u32 = if content_height == 0 { 1 } else { content_height };
    proof {
        law_fitted_size_within_frame(frame.width, frame.height, content_width, content_height);
        assert(frame.width as u64 * content_height as u64 <= u64::MAX) by (nonlinear_arith)
            requires
                frame.width <= u32::MAX,
                content_height <= u32::MAX,
        ;
        assert(frame.height as u64 * content_width as u64 <= u64::MAX) by (nonlinear_arith)
            requires
                frame.height <= u32::MAX,
                content_width <= u32::MAX,
        ;
    }
    let width_limited_height = ((frame.width as u64 * content_height as u64) / content_width as u64) as u32;
    let fitted_width: u32;
    let fitted_height: u32;
    if width_limited_height <= frame.height {
        fitted_width = frame.width;
        fitted_height = if width_limited_height == 0 { 1 } else { width_limited_height };
    } else {
        let height_limited_width = ((frame.height as u64 * content_width as u64) / content_height as u64) as u32;
        fitted_width = if height_limited_width == 0 { 1 } else { height_limited_width };
        fitted_height = frame.height;
    }
    RenderRect {
        x: frame.x + ((frame.width as i32 - fitted_width as i32) / 2),
        y: frame.y + ((frame.height as i32 - fitted_height as i32) / 2),
        width: fitted_width,
        height: fitted_height,
    }
}


/// Geometry of one listed candidate in the switcher overlay.
#[derive(Clone, Debug, PartialEq, Eq)]
pub struct SwitcherOverlayRow {
    pub surface_id: u64,
    /// Row background; drawn highlighted for the selected surface.
    pub item_rect: RenderRect,
    pub highlighted: bool,
    /// Frame behind the live thumbnail.
    pub thumbnail_frame: RenderRect,
    /// Live thumbnail rectangle, aspect-fitted into the frame.
    pub thumbnail: RenderRect,
    pub title_x: i32,
    pub title_y: i32,
    pub title: String,
    pub app_label_y: i32,
    pub app_label: Option<String>,
}

/// Geometry of the switcher overlay on one output.
#[derive(Clone, Debug, PartialEq, Eq)]
pub struct SwitcherOverlayLayout {
    pub panel: RenderRect,
    pub header_x: i32,
    pub header_y: i32,
    pub rows: Vec<SwitcherOverlayRow>,
}

/// Panel width: output width less 120, between 420 and 760.
pub open spec fn panel_width_spec(output_width: u32) -> int {
    let w = if output_width >= 120 { output_width - 120 } else { 0 };
    let w = if w > 760 { 760 } else { w };
    if w < 420 { 420 } else { w }
}

/// Panel height for `rows` listed candidates (at least 120).
pub open spec fn panel_height_spec(rows: int) -> int {
    let h = 18 * 2 + 28 + rows * 70 + (if rows >= 1 { rows - 1 } else { 0 }) * 10;
    if h < 120 { 120 } else { h }
}

/// Panel rectangle: horizontally centred, a third of the way down (at least 24 from the top).
pub open spec fn panel_rect_spec(output_width: u32, output_height: u32, rows: int) -> RenderRect {
    let width = panel_width_spec(output_width);
    let height = panel_height_spec(rows);
    let y = (if output_height >= height { output_height - height } else { 0 }) / 3;
    RenderRect {
        x: ((if output_width >= width { output_width - width } else { 0 }) / 2) as i32,
        y: (if y < 24 { 24 } else { y }) as i32,
        width: width as u32,
        height: height as u32,
    }
}

/// Row background of the `k`-th listed candidate.
pub open spec fn item_rect_spec(panel: RenderRect, k: int) -> RenderRect {
    RenderRect {
        x: (panel.x + 10) as i32,
        y: (panel.y + 18 + 28 + k * 80 - 4) as i32,
        width: (panel.width - 20) as u32,
        height: 70,
    }
}

/// Thumbnail frame inside a row.
pub open spec fn thumbnail_frame_spec(item: RenderRect) -> RenderRect {
    RenderRect { x: (item.x + 12) as i32, y: (item.y + 8) as i32, width: 96, height: 54 }
}


/// Geometry of the switcher overlay for `candidates` on an output of the given size: the
/// candidates of the visible window (at most seven, keeping the selection in view) are listed in
/// rows below a header; the selection is the candidate showing `selected_surface`, else index
/// `selected_index` clamped to the list. Returns `None` when there are no candidates.
#[verifier::rlimit(60)]
pub fn switcher_overlay_layout(
    output_width: u32,
    output_height: u32,
    candidates: &Vec<WindowSwitcherCandidate>,
    selected_surface: Option<u64>,
    selected_index: usize,
) -> (layout: Option<SwitcherOverlayLayout>)
    ensures
        candidates@.len() == 0 <==> layout is None,
        layout matches Some(layout) ==> {
            let selected = match selected_surface {
                Some(surface) => match position_of(candidates@, surface) {
                    Some(i) => i,
                    None => if selected_index < candidates@.len() { selected_index as int } else { candidates@.len() - 1 },
                },
                None => if selected_index < candidates@.len() { selected_index as int } else { candidates@.len() - 1 },
            };
            let (start, end) = visible_window_spec(candidates@.len() as int, selected);
            let panel = panel_rect_spec(output_width, output_height, end - start);
            &&& layout.panel == panel
            &&& layout.header_x == panel.x + 18
            &&& layout.header_y == panel.y + 18
            &&& layout.rows@.len() == end - start
            &&& forall|k: int| 0 <= k < end - start ==> {
                let candidate = candidates@[start + k];
                let row = #[trigger] layout.rows@[k];
                let item = item_rect_spec(panel, k);
                let frame = thumbnail_frame_spec(item);
                &&& row.surface_id == candidate.surface_id
                &&& row.item_rect == item
                &&& row.highlighted == (Some(candidate.surface_id) == selected_surface)
                &&& row.thumbnail_frame == frame
                &&& row.thumbnail == fitted_rect(frame, candidate.width, candidate.height)
                &&& row.title_x == frame.x + 96 + 16
                &&& row.title_y == item.y + 18
                &&& row.app_label_y == item.y + 40
                &&& (candidate.title@.len() > 0 ==> row.title@ == candidate.title@)
                &&& (candidate.title@.len() == 0 ==> row.title@ == window_label(candidate.surface_id))
                &&& (candidate.app_id@.len() == 0 ==> row.app_label is None)
                &&& (candidate.app_id@.len() > 0 ==> row.app_label == Some(candidate.app_id))
            }
        },
{
    let count = candidates.len();
    if count == 0 {
        return None;
    }
    let fallback_index = if selected_index < count { selected_index } else { count - 1 };
    let selected = match selected_surface {
        Some(surface) => match find_candidate(candidates, surface) {
            Some(i) => i,
            None => fallback_index,
        },
        None => fallback_index,
    };
    proof {
        if let Some(surface) = selected_surface {
            crate::search::lemma_first_index_bounds(candidates@, shows_surface(surface), 0);
        }
        law_visible_window_contains_selection(count as int, selected as int);
    }
    let (start, end) = visible_candidate_window(count, selected);
    let rows_count: u32 = (end - start) as u32;
    let trimmed: u32 = if output_width >= 120 { output_width - 120 } else { 0 };
    let capped: u32 = if trimmed > 760 { 760 } else { trimmed };
    let panel_width: u32 = if capped < 420 { 420 } else { capped };
    let gaps: u32 = if rows_count >= 1 { rows_count - 1 } else { 0 };
    let raw_height: u32 = 18 * 2 + 28 + rows_count * 70 + gaps * 10;
    let panel_height: u32 = if raw_height < 120 { 120 } else { raw_height };
    let spare_width: u32 = if output_width >= panel_width { output_width - panel_width } else { 0 };
    let panel_x: i32 = (spare_width / 2) as i32;
    let spare_height: u32 = if output_height >= panel_height { output_height - panel_height } else { 0 };
    let third: u32 = spare_height / 3;
    let panel_y: i32 = (if third < 24 { 24 } else { third }) as i32;
    let panel = RenderRect { x: panel_x, y: panel_y, width: panel_width, height: panel_height };
    assert(panel == panel_rect_spec(output_width, output_height, (end - start) as int));
    let mut rows: Vec<SwitcherOverlayRow> = Vec::new();
    let mut k: usize = 0;
    while k < end - start
        invariant
            0 <= start <= end <= count,
            end - start <= 7,
            count == candidates@.len(),
            panel == panel_rect_spec(output_width, output_height, (end - start) as int),
            420 <= panel.width <= 760,
            0 <= panel.x <= 2147483437,
            panel_x == panel.x,
            panel_y == panel.y,
            panel_width == panel.width,
            24 <= panel.y <= 1431655765,
            k <= end - start,
            rows@.len() == k,
            forall|j: int| 0 <= j < k ==> {
                let candidate = candidates@[start + j];
                let row = #[trigger] rows@[j];
                let item = item_rect_spec(panel, j);
                let frame = thumbnail_frame_spec(item);
                &&& row.surface_id == candidate.surface_id
                &&& row.item_rect == item
                &&& row.highlighted == (Some(candidate.surface_id) == selected_surface)
                &&& row.thumbnail_frame == frame
                &&& row.thumbnail == fitted_rect(frame, candidate.width, candidate.height)
                &&& row.title_x == frame.x + 96 + 16
                &&& row.title_y == item.y + 18
                &&& row.app_label_y == item.y + 40
                &&& (candidate.title@.len() > 0 ==> row.title@ == candidate.title@)
                &&& (candidate.title@.len() == 0 ==> row.title@ == window_label(candidate.surface_id))
                &&& (candidate.app_id@.len() == 0 ==> row.app_label is None)
                &&& (candidate.app_id@.len() > 0 ==> row.app_label == Some(candidate.app_id))
            },
        decreases end - start - k,
    {
        let candidate = &candidates[start + k];
        let item_rect = RenderRect {
            x: panel_x + 10,
            y: panel_y + 18 + 28 + (k as i32) * 80 - 4,
            width: panel_width - 20,
            height: 70,
        };
        assert(item_rect == item_rect_spec(panel, k as int));
        let thumbnail_frame = RenderRect { x: item_rect.x + 12, y: item_rect.y + 8, width: 96, height: 54 };
        assert(thumbnail_frame == thumbnail_frame_spec(item_rect));
        proof {
            law_fitted_size_within_frame(96, 54, candidate.width, candidate.height);
            assert(centred_origin_fits(thumbnail_frame, candidate.width, candidate.height));
        }
        let thumbnail = fit_rect_within(thumbnail_frame, candidate.width, candidate.height);
        let row = SwitcherOverlayRow {
            surface_id: candidate.surface_id,
            item_rect,
            highlighted: selected_surface == Some(candidate.surface_id),
            thumbnail_frame,
            thumbnail,
            title_x: thumbnail_frame.x + 96 + 16,
            title_y: item_rect.y + 18,
            title: candidate_title(candidate),
            app_label_y: item_rect.y + 40,
            app_label: candidate_app_label(candidate),
        };
        rows.push(row);
        assert(rows@[k as int] == row);
        k += 1;
    }
    let ghost sel = match selected_surface {
        Some(surface) => match position_of(candidates@, surface) {
            Some(i) => i,
            None => if selected_index < candidates@.len() { selected_index as int } else { candidates@.len() - 1 },
        },
        None => if selected_index < candidates@.len() { selected_index as int } else { candidates@.len() - 1 },
    };
    assert(sel == selected as int);
    let ghost (gs, ge) = visible_window_spec(candidates@.len() as int, sel);
    assert(gs == start && ge == end);
    assert(rows@.len() == ge - gs);
    Some(SwitcherOverlayLayout { panel, header_x: panel_x + 18, header_y: panel_y + 18, rows })
}

/// Overlay of the current switcher session, drawn on the session's origin output: nothing when
/// no session is active, the session has no workspace or origin output, that output is not among
/// `outputs`, or there are no candidates (the session's front-to-back candidates); else the
/// origin output and the layout of [`switcher_overlay_layout`] on that output's size, with the
/// session's selection.
pub fn window_switcher_overlay_system(
    switcher: &WindowSwitcherState,
    outputs: &Vec<OutputRecord>,
    candidates: &Vec<WindowSwitcherCandidate>,
) -> (overlay: Option<(u64, SwitcherOverlayLayout)>)
    ensures
        overlay is None <==> (!switcher.active || switcher.workspace_id is None
            || switcher.origin_output_id is None || first_index(
            outputs@,
            has_output_id(switcher.origin_output_id->0),
        ) is None || candidates@.len() == 0),
        overlay matches Some((output_id, layout)) ==> {
            let o = first_index(outputs@, has_output_id(output_id))->0;
            &&& switcher.origin_output_id == Some(output_id)
            &&& {
            let selected = match switcher.selected_surface {
                Some(surface) => match position_of(candidates@, surface) {
                    Some(i) => i,
                    None => if switcher.selected_index < candidates@.len() { switcher.selected_index as int } else { candidates@.len() - 1 },
                },
                None => if switcher.selected_index < candidates@.len() { switcher.selected_index as int } else { candidates@.len() - 1 },
            };
            let (start, end) = visible_window_spec(candidates@.len() as int, selected);
            let panel = panel_rect_spec(outputs@[o].properties.width, outputs@[o].properties.height, end - start);
            &&& layout.panel == panel
            &&& layout.header_x == panel.x + 18
            &&& layout.header_y == panel.y + 18
            &&& layout.rows@.len() == end - start
            &&& forall|k: int| 0 <= k < end - start ==> {
                let candidate = candidates@[start + k];
                let row = #[trigger] layout.rows@[k];
                let item = item_rect_spec(panel, k);
                let frame = thumbnail_frame_spec(item);
                &&& row.surface_id == candidate.surface_id
                &&& row.item_rect == item
                &&& row.highlighted == (Some(candidate.surface_id) == switcher.selected_surface)
                &&& row.thumbnail_frame == frame
                &&& row.thumbnail == fitted_rect(frame, candidate.width, candidate.height)
                &&& row.title_x == frame.x + 96 + 16
                &&& row.title_y == item.y + 18
                &&& row.app_label_y == item.y + 40
                &&& (candidate.title@.len() > 0 ==> row.title@ == candidate.title@)
                &&& (candidate.title@.len() == 0 ==> row.title@ == window_label(candidate.surface_id))
                &&& (candidate.app_id@.len() == 0 ==> row.app_label is None)
                &&& (candidate.app_id@.len() > 0 ==> row.app_label == Some(candidate.app_id))
            }
            }
        },
{
    if !switcher.active || switcher.workspace_id.is_none() {
        return None;
    }
    let output_id = match switcher.origin_output_id {
        Some(output_id) => output_id,
        None => return None,
    };
    let o = match find_output_by_id(outputs, output_id) {
        Some(o) => o,
        None => return None,
    };
    proof {
        lemma_first_index_bounds(outputs@, has_output_id(output_id), 0);
    }
    let properties = outputs[o].properties;
    assert(first_index(outputs@, has_output_id(output_id)) == Some(o as int));
    assert(properties == outputs@[o as int].properties);
    match switcher_overlay_layout(
        properties.width,
        properties.height,
        candidates,
        switcher.selected_surface,
        switcher.selected_index,
    ) {
        Some(layout) => Some((output_id, layout)),
        None => None,
    }
}

/// Title shown for a candidate: its title, or `Window <id>` when untitled.
pub fn candidate_title(candidate: &WindowSwitcherCandidate) -> (title: String)
    ensures
        candidate.title@.len() > 0 ==> title@ == candidate.title@,
        candidate.title@.len() == 0 ==> title@ == window_label(candidate.surface_id),
{
    if candidate.title.as_str().unicode_len() == 0 {
        untitled_label(candidate.surface_id)
    } else {
        candidate.title.clone()
    }
}

/// `Window <id>` label of an untitled candidate.
pub open spec fn window_label(surface_id: u64) -> Seq<char> {
    "Window "@ + crate::text::decimal(surface_id as nat)
}

/// The `Window <id>` label of an untitled window.
pub(crate) fn untitled_label(surface_id: u64) -> (label: String)
    ensures
        label@ == window_label(surface_id),
{
    let mut label = "Window ".to_owned();
    crate::text::append_decimal(&mut label, surface_id);
    label
}

/// Application label shown under a candidate's title, when it has an application id.
pub fn candidate_app_label(candidate: &WindowSwitcherCandidate) -> (label: Option<String>)
    ensures
        candidate.app_id@.len() == 0 ==> label is None,
        candidate.app_id@.len() > 0 ==> label == Some(candidate.app_id),
{
    if candidate.app_id.as_str().unicode_len() == 0 {
        None
    } else {
        Some(candidate.app_id.clone())
    }
}

/// Ids of the window switcher's shortcuts: hold, cycle forward, cycle backward.
pub open spec fn switcher_shortcut_ids() -> Seq<Seq<char>> {
    seq!["window_switcher.hold"@, "window_switcher.cycle_next"@, "window_switcher.cycle_prev"@]
}

/// The window switcher's shortcuts as registered.
pub open spec fn switcher_shortcut_views() -> Seq<ShortcutView> {
    seq![
        ShortcutView {
            id: "window_switcher.hold"@,
            owner: "window_switcher"@,
            description: "Hold while cycling the window switcher"@,
            default_binding: "Alt"@,
            trigger: ShortcutTrigger::Hold,
        },
        ShortcutView {
            id: "window_switcher.cycle_next"@,
            owner: "window_switcher"@,
            description: "Cycle to the next switcher candidate"@,
            default_binding: "Alt+Tab"@,
            trigger: ShortcutTrigger::Press,
        },
        ShortcutView {
            id: "window_switcher.cycle_prev"@,
            owner: "window_switcher"@,
            description: "Cycle to the previous switcher candidate"@,
            default_binding: "Alt+Shift+Tab"@,
            trigger: ShortcutTrigger::Press,
        },
    ]
}

/// Registers the window switcher's shortcuts.
pub fn register_shortcuts(registry: &mut ShortcutRegistry)
    requires
        forall|k: int| 0 <= k < 3 ==> !has_id(old(registry).view(), #[trigger] switcher_shortcut_ids()[k]),
    ensures
        final(registry).view() == old(registry).view() + switcher_shortcut_views(),
        ids_unique(old(registry).view()) ==> ids_unique(final(registry).view()),
{
    proof {
        reveal_strlit("window_switcher.hold");
        reveal_strlit("window_switcher.cycle_next");
        reveal_strlit("window_switcher.cycle_prev");
        assert(switcher_shortcut_ids()[0].len() != switcher_shortcut_ids()[1].len());
        assert(switcher_shortcut_ids()[0].len() != switcher_shortcut_ids()[2].len());
        assert(switcher_shortcut_ids()[1][22] != switcher_shortcut_ids()[2][22]);
    }
    let ghost start = registry.view();
    assert(!has_id(start, switcher_shortcut_ids()[0]));
    register_builtin(
        registry,
        "window_switcher.hold",
        "window_switcher",
        "Hold while cycling the window switcher",
        "Alt",
        ShortcutTrigger::Hold,
    );
    let ghost first = registry.view();
    assert(!has_id(start, switcher_shortcut_ids()[1]));
    assert(!has_id(first, "window_switcher.cycle_next"@)) by {
        if has_id(first, "window_switcher.cycle_next"@) {
            let i = choose|i: int| 0 <= i < first.len() && first[i].id == "window_switcher.cycle_next"@;
            if i < start.len() {
                assert(start[i].id == switcher_shortcut_ids()[1]);
            }
        }
    }
    register_builtin(
        registry,
        "window_switcher.cycle_next",
        "window_switcher",
        "Cycle to the next switcher candidate",
        "Alt+Tab",
        ShortcutTrigger::Press,
    );
    let ghost second = registry.view();
    assert(!has_id(start, switcher_shortcut_ids()[2]));
    assert(!has_id(second, "window_switcher.cycle_prev"@)) by {
        if has_id(second, "window_switcher.cycle_prev"@) {
            let i = choose|i: int| 0 <= i < second.len() && second[i].id == "window_switcher.cycle_prev"@;
            if i < start.len() {
                assert(start[i].id == switcher_shortcut_ids()[2]);
            }
        }
    }
    register_builtin(
        registry,
        "window_switcher.cycle_prev",
        "window_switcher",
        "Cycle to the previous switcher candidate",
        "Alt+Shift+Tab",
        ShortcutTrigger::Press,
    );
    assert(registry.view() =~= start + switcher_shortcut_views());
}

} // verus!

//! Keyboard focus from the visible window stack: active grabs win, then (optionally) tiled-only
//! focus-follows-mouse hover, then a fallback to the front-most visible window when the
//! previous focus disappeared.
//!
//! Pointer positions are fractional; the caller tests which visible windows lie under the
//! pointer (inclusive left/top, exclusive right/bottom, on the pointer's output) and hands the
//! answer in with each candidate.

#[allow(unused_imports)]
use vstd::prelude::*;
use crate::model::{WindowLayout, WindowMode};
use crate::search::{first_index, first_index_from, lemma_first_index_bounds};
use crate::window_policy::WindowRole;

verus! {

/// Marker type documenting the focus subsystem.
#[derive(Clone, Copy, Debug, PartialEq, Eq, Structural)]
pub struct FocusManager;

/// Hover tracking for focus-follows-mouse.
#[derive(Clone, Copy, Debug, PartialEq, Eq, Structural)]
pub struct FocusHoverState {
    pub initialized: bool,
    pub hovered_surface: Option<u64>,
}

impl Default for FocusHoverState {
    fn default() -> (state: Self)
        ensures
            !state.initialized,
            state.hovered_surface is None,
    {
        FocusHoverState { initialized: false, hovered_surface: None }
    }
}

/// A window as focus sees it.
#[derive(Clone, Copy, Debug, PartialEq, Eq, Structural)]
pub struct FocusWindow {
    pub surface_id: u64,
    pub mode: WindowMode,
    /// Whether the window is visible through some output's viewport.
    pub visible: bool,
    pub role: WindowRole,
    pub helper_surface: bool,
    pub layout: WindowLayout,
    pub workspace: u32,
}

/// Windows that can take focus: not hidden, visible, managed, not helpers.
pub open spec fn focusable(window: FocusWindow) -> bool {
    window.mode != WindowMode::Hidden && window.visible && window.role == WindowRole::Managed
        && !window.helper_surface
}

/// The focusable windows, in order.
pub open spec fn focusable_windows(windows: Seq<FocusWindow>) -> Seq<FocusWindow>
    decreases windows.len(),
{
    if windows.len() == 0 {
        seq![]
    } else {
        let rest = focusable_windows(windows.drop_last());
        if focusable(windows.last()) {
            rest.push(windows.last())
        } else {
            rest
        }
    }
}

/// Windows that can take focus, in order.
pub fn visible_window_geometries(windows: &Vec<FocusWindow>) -> (visible: Vec<FocusWindow>)
    ensures
        visible@ == focusable_windows(windows@),
{
    let mut visible: Vec<FocusWindow> = Vec::new();
    let mut i: usize = 0;
    while i < windows.len()
        invariant
            i <= windows@.len(),
            visible@ == focusable_windows(windows@.take(i as int)),
        decreases windows.len() - i,
    {
        proof {
            assert(windows@.take(i + 1).drop_last() =~= windows@.take(i as int));
        }
        let window = windows[i];
        if window.mode != WindowMode::Hidden && window.visible && window.role == WindowRole::Managed
            && !window.helper_surface {
            visible.push(window);
        }
        i += 1;
    }
    assert(windows@.take(i as int) =~= windows@);
    visible
}

/// A visible surface in stacking order, with whether the pointer is over it.
#[derive(Clone, Copy, Debug, PartialEq, Eq, Structural)]
pub struct FocusCandidate {
    pub surface_id: u64,
    pub workspace: u32,
    pub layout: WindowLayout,
    pub under_pointer: bool,
}

/// Candidate with a given surface.
pub open spec fn candidate_with(surface_id: u64) -> spec_fn(FocusCandidate) -> bool {
    |candidate: FocusCandidate| candidate.surface_id == surface_id
}

/// Whether a surface is among the candidates.
pub open spec fn is_candidate(candidates: Seq<FocusCandidate>, surface_id: u64) -> bool {
    exists|i: int| 0 <= i < candidates.len() && candidates[i].surface_id == surface_id
}

/// Front-most candidate (last in stacking order) satisfying `pred`.
pub open spec fn frontmost(candidates: Seq<FocusCandidate>, pred: spec_fn(FocusCandidate) -> bool) -> Option<
    u64,
>
    decreases candidates.len(),
{
    if candidates.len() == 0 {
        None
    } else if pred(candidates.last()) {
        Some(candidates.last().surface_id)
    } else {
        frontmost(candidates.drop_last(), pred)
    }
}

/// Candidate under the pointer.
pub open spec fn pointed() -> spec_fn(FocusCandidate) -> bool {
    |candidate: FocusCandidate| candidate.under_pointer
}

/// Tiled candidate under the pointer.
pub open spec fn pointed_tile() -> spec_fn(FocusCandidate) -> bool {
    |candidate: FocusCandidate| candidate.under_pointer && candidate.layout == WindowLayout::Tiled
}

proof fn lemma_frontmost_is_candidate(candidates: Seq<FocusCandidate>, pred: spec_fn(FocusCandidate) -> bool)
    ensures
        frontmost(candidates, pred) matches Some(s) ==> is_candidate(candidates, s),
    decreases candidates.len(),
{
    if candidates.len() > 0 {
        if pred(candidates.last()) {
            assert(candidates[candidates.len() - 1].surface_id == candidates.last().surface_id);
        } else {
            lemma_frontmost_is_candidate(candidates.drop_last(), pred);
            if let Some(s) = frontmost(candidates.drop_last(), pred) {
                let i = choose|i: int| 0 <= i < candidates.drop_last().len() && candidates.drop_last()[i].surface_id == s;
                assert(candidates[i].surface_id == s);
            }
        }
    }
}

fn find_frontmost(candidates: &Vec<FocusCandidate>, tiled_only: bool) -> (surface: Option<u64>)
    ensures
        surface == frontmost(candidates@, if tiled_only { pointed_tile() } else { pointed() }),
{
    let ghost pred = if tiled_only { pointed_tile() } else { pointed() };
    let mut i: usize = candidates.len();
    assert(candidates@.take(i as int) =~= candidates@);
    while i > 0
        invariant
            i <= candidates@.len(),
            pred == (if tiled_only { pointed_tile() } else { pointed() }),
            frontmost(candidates@, pred) == frontmost(candidates@.take(i as int), pred),
        decreases i,
    {
        let candidate = candidates[i - 1];
        proof {
            assert(candidates@.take(i as int).drop_last() =~= candidates@.take(i - 1));
            assert(candidates@.take(i as int).last() == candidate);
        }
        if candidate.under_pointer && (!tiled_only || candidate.layout == WindowLayout::Tiled) {
            return Some(candidate.surface_id);
        }
        i -= 1;
    }
    None
}

fn contains_surface(candidates: &Vec<FocusCandidate>, surface_id: u64) -> (index: Option<usize>)
    ensures
        match index {
            Some(i) => first_index(candidates@, candidate_with(surface_id)) == Some(i as int),
            None => first_index(candidates@, candidate_with(surface_id)) is None,
        },
        index is Some <==> is_candidate(candidates@, surface_id),
{
    proof {
        lemma_first_index_bounds(candidates@, candidate_with(surface_id), 0);
    }
    let mut i: usize = 0;
    while i < candidates.len()
        invariant
            i <= candidates@.len(),
            forall|j: int| 0 <= j < i ==> candidates@[j].surface_id != surface_id,
            first_index(candidates@, candidate_with(surface_id)) == first_index_from(
                candidates@,
                candidate_with(surface_id),
                i as int,
            ),
        decreases candidates.len() - i,
    {
        if candidates[i].surface_id == surface_id {
            return Some(i);
        }
        i += 1;
    }
    None
}

/// Surface a pointer press focuses: the surface with pointer focus when it is visible, else the
/// front-most visible surface under the pointer.
pub open spec fn pressed_target(candidates: Seq<FocusCandidate>, pointer_focus: Option<u64>) -> Option<u64> {
    match pointer_focus {
        Some(surface) => if is_candidate(candidates, surface) {
            Some(surface)
        } else {
            frontmost(candidates, pointed())
        },
        None => frontmost(candidates, pointed()),
    }
}

/// Focuses the window a pointer press lands on (see [`pressed_target`]) and returns its raise
/// (workspace and surface); nothing without a press.
pub fn pointer_button_focus_system(
    pressed: bool,
    candidates: &Vec<FocusCandidate>,
    pointer_focus: Option<u64>,
    focus: &mut Option<u64>,
) -> (raise: Option<(u32, u64)>)
    ensures
        !pressed ==> *final(focus) == *old(focus) && raise is None,
        pressed ==> match pressed_target(candidates@, pointer_focus) {
            Some(surface) => {
                let i = first_index(candidates@, candidate_with(surface))->0;
                &&& *final(focus) == Some(surface)
                &&& raise == Some((candidates@[i].workspace, surface))
            },
            None => *final(focus) == *old(focus) && raise is None,
        },
{
    if !pressed {
        return None;
    }
    let by_pointer_focus = match pointer_focus {
        Some(surface) => if contains_surface(candidates, surface).is_some() {
            Some(surface)
        } else {
            None
        },
        None => None,
    };
    let target = match by_pointer_focus {
        Some(surface) => Some(surface),
        None => find_frontmost(candidates, false),
    };
    let surface = match target {
        Some(surface) => surface,
        None => return None,
    };
    proof {
        lemma_frontmost_is_candidate(candidates@, pointed());
        lemma_first_index_bounds(candidates@, candidate_with(surface), 0);
    }
    *focus = Some(surface);
    match contains_surface(candidates, surface) {
        Some(i) => Some((candidates[i].workspace, surface)),
        None => None,
    }
}

/// What focus management reads besides the stack.
#[derive(Clone, Copy, Debug, PartialEq, Eq, Structural)]
pub struct FocusSignals {
    /// Surface of the active interactive grab, if any.
    pub grabbed_surface: Option<u64>,
    pub focus_follows_mouse: bool,
    /// Whether the viewport is being panned with the pointer.
    pub pointer_pan_active: bool,
    /// Whether a viewport animation runs on the pointer's output.
    pub pointer_output_animating: bool,
}

/// Focus management over the visible stack (back to front). Nothing happens without visible
/// surfaces. A visible grabbed surface takes focus (and the hover). With focus-follows-mouse and
/// no pan or animation under the pointer, the front-most tiled surface under the pointer is the
/// hover: the first time it is recorded (taking focus when there is one), later a changed hover
/// takes focus when there is one. Then focus on a vanished surface is dropped, and missing focus
/// falls back to the front-most visible surface.
pub open spec fn focus_step(
    candidates: Seq<FocusCandidate>,
    signals: FocusSignals,
    hover: FocusHoverState,
    focus: Option<u64>,
) -> (FocusHoverState, Option<u64>) {
    if candidates.len() == 0 {
        (hover, focus)
    } else if signals.grabbed_surface is Some && is_candidate(candidates, signals.grabbed_surface->0) {
        let grabbed = signals.grabbed_surface->0;
        (FocusHoverState { initialized: true, hovered_surface: Some(grabbed) }, Some(grabbed))
    } else {
        let (hover1, focus1) = if signals.focus_follows_mouse && !signals.pointer_pan_active
            && !signals.pointer_output_animating {
            let hovered = frontmost(candidates, pointed_tile());
            if !hover.initialized {
                (
                    FocusHoverState { initialized: true, hovered_surface: hovered },
                    if hovered is Some { hovered } else { focus },
                )
            } else if hovered != hover.hovered_surface {
                (
                    FocusHoverState { hovered_surface: hovered, ..hover },
                    if hovered is Some { hovered } else { focus },
                )
            } else {
                (hover, focus)
            }
        } else {
            (hover, focus)
        };
        let focus2 = match focus1 {
            Some(surface) => if is_candidate(candidates, surface) {
                Some(surface)
            } else {
                None
            },
            None => None,
        };
        (hover1, if focus2 is None { Some(candidates.last().surface_id) } else { focus2 })
    }
}

/// Whether focus-follows-mouse leaves the focus as it was: it is off, suspended by a pan or a
/// viewport animation, hovers no tile, or hovers the tile it already recorded.
pub open spec fn hover_keeps_focus(candidates: Seq<FocusCandidate>, signals: FocusSignals, hover: FocusHoverState) -> bool {
    let hovered = frontmost(candidates, pointed_tile());
    ||| !signals.focus_follows_mouse
    ||| signals.pointer_pan_active
    ||| signals.pointer_output_animating
    ||| hovered is None
    ||| (hover.initialized && hovered == hover.hovered_surface)
}

/// With at least one visible surface, focus always lands on a visible surface: the grabbed one
/// when it is visible; otherwise, when focus-follows-mouse leaves the focus as it was (see
/// [`hover_keeps_focus`]), a previous focus that is still visible stays, and a previous focus that
/// is gone or missing gives way to the front-most visible surface.
pub proof fn law_focus_lands_on_visible_surface(
    candidates: Seq<FocusCandidate>,
    signals: FocusSignals,
    hover: FocusHoverState,
    focus: Option<u64>,
)
    requires
        candidates.len() > 0,
    ensures
        ({
            let (_, after) = focus_step(candidates, signals, hover, focus);
            &&& after matches Some(surface) && is_candidate(candidates, surface)
            &&& (signals.grabbed_surface matches Some(g) && is_candidate(candidates, g)) ==> after
                == signals.grabbed_surface
            &&& (!(signals.grabbed_surface matches Some(g) && is_candidate(candidates, g))
                && hover_keeps_focus(candidates, signals, hover) && (focus matches Some(f) ==> !is_candidate(candidates, f)))
                ==> after == Some(candidates.last().surface_id)
            &&& (!(signals.grabbed_surface matches Some(g) && is_candidate(candidates, g))
                && hover_keeps_focus(candidates, signals, hover) && (focus matches Some(f) && is_candidate(candidates, f)))
                ==> after == focus
        }),
{
    lemma_frontmost_is_candidate(candidates, pointed_tile());
    assert(candidates[candidates.len() - 1].surface_id == candidates.last().surface_id);
}

/// The front-most candidate satisfying `pred` is the one at index `i` when it satisfies `pred` and
/// no candidate in front of it does.
proof fn lemma_frontmost_at(candidates: Seq<FocusCandidate>, pred: spec_fn(FocusCandidate) -> bool, i: int)
    requires
        0 <= i < candidates.len(),
        pred(candidates[i]),
        forall|j: int| i < j < candidates.len() ==> !pred(#[trigger] candidates[j]),
    ensures
        frontmost(candidates, pred) == Some(candidates[i].surface_id),
    decreases candidates.len(),
{
    if i < candidates.len() - 1 {
        assert(!pred(candidates[candidates.len() - 1]));
        let rest = candidates.drop_last();
        assert forall|j: int| i < j < rest.len() implies !pred(#[trigger] rest[j]) by {
            assert(rest[j] == candidates[j]);
        }
        lemma_frontmost_at(rest, pred, i);
        assert(rest[i] == candidates[i]);
    }
}

/// Focus follows the mouse: with focus-follows-mouse on, no visible grab, no pan and no viewport
/// animation, when the tiled candidate at index `i` is under the pointer, no candidate in front of
/// it is a tiled one under the pointer, and the hover has not yet recorded that surface (or was
/// never initialized), that surface becomes both the hover and the focus.
pub proof fn law_focus_follows_hovered_tile(
    candidates: Seq<FocusCandidate>,
    signals: FocusSignals,
    hover: FocusHoverState,
    focus: Option<u64>,
    i: int,
)
    requires
        0 <= i < candidates.len(),
        candidates[i].under_pointer,
        candidates[i].layout == WindowLayout::Tiled,
        forall|j: int|
            i < j < candidates.len() ==> !(#[trigger] candidates[j].under_pointer && candidates[j].layout
                == WindowLayout::Tiled),
        signals.focus_follows_mouse,
        !signals.pointer_pan_active,
        !signals.pointer_output_animating,
        !(signals.grabbed_surface matches Some(g) && is_candidate(candidates, g)),
        !hover.initialized || hover.hovered_surface != Some(candidates[i].surface_id),
    ensures
        ({
            let (hover_after, focus_after) = focus_step(candidates, signals, hover, focus);
            &&& focus_after == Some(candidates[i].surface_id)
            &&& hover_after.initialized
            &&& hover_after.hovered_surface == Some(candidates[i].surface_id)
        }),
{
    assert forall|j: int| i < j < candidates.len() implies !(#[trigger] pointed_tile()(candidates[j])) by {}
    lemma_frontmost_at(candidates, pointed_tile(), i);
}

/// A press focuses the surface that has pointer focus when it is visible; otherwise, when the
/// candidate at index `i` is under the pointer and none in front of it is, the press focuses that
/// candidate (the front-most one under the pointer, whatever its layout).
pub proof fn law_press_focuses_frontmost_under_pointer(
    candidates: Seq<FocusCandidate>,
    pointer_focus: Option<u64>,
    i: int,
)
    requires
        0 <= i < candidates.len(),
    ensures
        (pointer_focus matches Some(s) && is_candidate(candidates, s)) ==> pressed_target(candidates, pointer_focus)
            == pointer_focus,
        (!(pointer_focus matches Some(s) && is_candidate(candidates, s)) && candidates[i].under_pointer
            && (forall|j: int| i < j < candidates.len() ==> !(#[trigger] candidates[j].under_pointer)))
            ==> pressed_target(candidates, pointer_focus) == Some(candidates[i].surface_id),
{
    if candidates[i].under_pointer && (forall|j: int| i < j < candidates.len() ==> !(#[trigger] candidates[j].under_pointer)) {
        assert forall|j: int| i < j < candidates.len() implies !(#[trigger] pointed()(candidates[j])) by {}
        lemma_frontmost_at(candidates, pointed(), i);
    }
}

/// Maintains keyboard focus from the visible stack; see [`focus_step`].
pub fn focus_management_system(
    candidates: &Vec<FocusCandidate>,
    signals: FocusSignals,
    hover: &mut FocusHoverState,
    focus: &mut Option<u64>,
)
    ensures
        (*final(hover), *final(focus)) == focus_step(candidates@, signals, *old(hover), *old(focus)),
        candidates@.len() > 0 ==> (*final(focus) matches Some(surface) && is_candidate(candidates@, surface)),
{
    if candidates.len() == 0 {
        return;
    }
    if let Some(grabbed) = signals.grabbed_surface {
        if contains_surface(candidates, grabbed).is_some() {
            hover.initialized = true;
            hover.hovered_surface = Some(grabbed);
            *focus = Some(grabbed);
            return;
        }
    }
    if signals.focus_follows_mouse && !signals.pointer_pan_active && !signals.pointer_output_animating {
        let hovered = find_frontmost(candidates, true);
        if !hover.initialized {
            hover.initialized = true;
            hover.hovered_surface = hovered;
            if hovered.is_some() {
                *focus = hovered;
            }
        } else if hovered != hover.hovered_surface {
            if hovered.is_some() {
                *focus = hovered;
            }
            hover.hovered_surface = hovered;
        }
    }
    if let Some(surface) = *focus {
        if contains_surface(candidates, surface).is_none() {
            *focus = None;
        }
    }
    if focus.is_none() {
        let last = candidates.len() - 1;
        *focus = Some(candidates[last].surface_id);
        assert(candidates@[last as int].surface_id == candidates@.last().surface_id);
    }
}

} // verus!

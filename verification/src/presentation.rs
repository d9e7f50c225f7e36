//! Presentation sync: which windows the protocol side must be told about (fullscreen,
//! maximized, resizing, or explicitly sized), sent once per change.

#[allow(unused_imports)]
use vstd::prelude::*;
use std::collections::BTreeMap;
use crate::interaction::PendingInteractiveResize;
use crate::model::{SurfaceGeometry, WindowMode, WindowSceneGeometry};
use crate::window_policy::WindowRole;

verus! {

/// Presentation a window should have on the protocol side.
#[derive(Clone, Copy, Debug, PartialEq, Eq, Structural)]
pub struct WindowPresentationState {
    pub geometry: SurfaceGeometry,
    pub scene_geometry: Option<WindowSceneGeometry>,
    pub fullscreen: bool,
    pub maximized: bool,
    pub resizing: bool,
}

/// A window as presentation sync sees it.
#[derive(Clone, Copy, Debug, PartialEq, Eq, Structural)]
pub struct PresentationWindow {
    pub surface_id: u64,
    pub role: WindowRole,
    pub mode: WindowMode,
    pub geometry: SurfaceGeometry,
    pub scene_geometry: WindowSceneGeometry,
    pub pending_resize: Option<PendingInteractiveResize>,
    /// Whether the window has a floating size.
    pub sized: bool,
    pub client_driven_resize: bool,
    /// Size the client last committed.
    pub committed_width: u32,
    pub committed_height: u32,
}

/// The current geometry and scene geometry with the given flags.
pub open spec fn current_presentation(
    window: PresentationWindow,
    fullscreen: bool,
    maximized: bool,
    resizing: bool,
) -> WindowPresentationState {
    WindowPresentationState {
        geometry: window.geometry,
        scene_geometry: Some(window.scene_geometry),
        fullscreen,
        maximized,
        resizing,
    }
}

/// Presentation a window should have: fullscreen (output backgrounds too) or maximized (managed
/// windows) with the current geometry; while resizing, the in-flight (else requested) size at
/// the current origin; an explicitly sized window, and any window whose size the compositor
/// drives, with the current geometry; a client-driven window only when its committed size is
/// known and differs from the scene size; else none.
pub open spec fn desired_presentation(window: PresentationWindow) -> Option<WindowPresentationState> {
    let fullscreen = window.role == WindowRole::OutputBackground || window.mode == WindowMode::Fullscreen;
    let maximized = window.role == WindowRole::Managed && window.mode == WindowMode::Maximized;
    let resizing = window.pending_resize is Some;
    if fullscreen || maximized {
        Some(current_presentation(window, fullscreen, maximized, resizing))
    } else if let Some(pending) = window.pending_resize {
        let target = match pending.inflight_geometry {
            Some(inflight) => inflight,
            None => pending.requested_geometry,
        };
        Some(
            WindowPresentationState {
                geometry: SurfaceGeometry {
                    x: window.geometry.x,
                    y: window.geometry.y,
                    width: if target.width == 0 { 1 } else { target.width },
                    height: if target.height == 0 { 1 } else { target.height },
                },
                scene_geometry: Some(target),
                fullscreen: false,
                maximized: false,
                resizing: true,
            },
        )
    } else if window.sized {
        Some(current_presentation(window, false, false, false))
    } else if window.client_driven_resize {
        if window.committed_width > 0 && window.committed_height > 0 && (window.committed_width
            != window.scene_geometry.width || window.committed_height
            != window.scene_geometry.height) {
            Some(current_presentation(window, false, false, false))
        } else {
            None
        }
    } else {
        Some(current_presentation(window, false, false, false))
    }
}

/// Presentation a window should have; see [`desired_presentation`].
pub fn desired_presentation_state(window: &PresentationWindow) -> (state: Option<WindowPresentationState>)
    ensures
        state == desired_presentation(*window),
{
    let fullscreen = window.role == WindowRole::OutputBackground || window.mode
        == WindowMode::Fullscreen;
    let maximized = window.role == WindowRole::Managed && window.mode == WindowMode::Maximized;
    let resizing = window.pending_resize.is_some();
    if fullscreen || maximized {
        return Some(
            WindowPresentationState {
                geometry: window.geometry,
                scene_geometry: Some(window.scene_geometry),
                fullscreen,
                maximized,
                resizing,
            },
        );
    }
    if let Some(pending) = window.pending_resize {
        let target = match pending.inflight_geometry {
            Some(inflight) => inflight,
            None => pending.requested_geometry,
        };
        return Some(
            WindowPresentationState {
                geometry: SurfaceGeometry {
                    x: window.geometry.x,
                    y: window.geometry.y,
                    width: if target.width == 0 { 1 } else { target.width },
                    height: if target.height == 0 { 1 } else { target.height },
                },
                scene_geometry: Some(target),
                fullscreen: false,
                maximized: false,
                resizing: true,
            },
        );
    }
    let current = WindowPresentationState {
        geometry: window.geometry,
        scene_geometry: Some(window.scene_geometry),
        fullscreen: false,
        maximized: false,
        resizing: false,
    };
    if window.sized {
        Some(current)
    } else if window.client_driven_resize {
        if window.committed_width > 0 && window.committed_height > 0 && (window.committed_width
            != window.scene_geometry.width || window.committed_height
            != window.scene_geometry.height) {
            Some(current)
        } else {
            None
        }
    } else {
        Some(current)
    }
}

/// Request telling the protocol side a surface's presentation.
#[derive(Clone, Copy, Debug, PartialEq, Eq, Structural)]
pub struct PresentationSync {
    pub surface_id: u64,
    pub state: WindowPresentationState,
}

/// Server action that carries a presentation state.
pub fn window_server_action_for_presentation_state(
    surface_id: u64,
    state: &WindowPresentationState,
) -> (request: PresentationSync)
    ensures
        request == (PresentationSync { surface_id, state: *state }),
{
    PresentationSync { surface_id, state: *state }
}

/// One window of a sync pass: nothing when its last sent presentation is the desired one; else
/// the desired presentation is sent and remembered (an interactive resize in progress is marked
/// in flight); a window that no longer needs a presentation after having one is sent its plain
/// geometry and forgotten.
pub open spec fn sync_window_step(
    window: PresentationWindow,
    synced: Map<u64, WindowPresentationState>,
) -> (PresentationWindow, Map<u64, WindowPresentationState>, Option<PresentationSync>) {
    let surface = window.surface_id;
    let desired = desired_presentation(window);
    let last = if synced.contains_key(surface) {
        Some(synced[surface])
    } else {
        None
    };
    if last == desired {
        (window, synced, None)
    } else {
        match desired {
            Some(state) => (
                PresentationWindow {
                    pending_resize: match window.pending_resize {
                        Some(pending) => if pending.inflight_geometry is None {
                            Some(
                                PendingInteractiveResize {
                                    inflight_geometry: Some(pending.requested_geometry),
                                    ..pending
                                },
                            )
                        } else {
                            Some(pending)
                        },
                        None => None,
                    },
                    ..window
                },
                synced.insert(surface, state),
                Some(PresentationSync { surface_id: surface, state }),
            ),
            None => (
                window,
                synced.remove(surface),
                Some(
                    PresentationSync {
                        surface_id: surface,
                        state: WindowPresentationState {
                            geometry: window.geometry,
                            scene_geometry: None,
                            fullscreen: false,
                            maximized: false,
                            resizing: false,
                        },
                    },
                ),
            ),
        }
    }
}

/// Syncs one window against the remembered presentations; see [`sync_window_step`].
pub fn sync_window_presentation(
    window: &mut PresentationWindow,
    synced: &mut BTreeMap<u64, WindowPresentationState>,
) -> (request: Option<PresentationSync>)
    ensures
        (*final(window), final(synced)@, request) == sync_window_step(*old(window), old(synced)@),
{
    let surface = window.surface_id;
    let desired = desired_presentation_state(window);
    let last = match synced.get(&surface) {
        Some(state) => Some(*state),
        None => None,
    };
    if last == desired {
        return None;
    }
    match desired {
        Some(state) => {
            if let Some(pending) = window.pending_resize {
                if pending.inflight_geometry.is_none() {
                    window.pending_resize = Some(
                        PendingInteractiveResize {
                            inflight_geometry: Some(pending.requested_geometry),
                            ..pending
                        },
                    );
                }
            }
            synced.insert(surface, state);
            Some(window_server_action_for_presentation_state(surface, &state))
        },
        None => {
            synced.remove(&surface);
            Some(
                PresentationSync {
                    surface_id: surface,
                    state: WindowPresentationState {
                        geometry: window.geometry,
                        scene_geometry: None,
                        fullscreen: false,
                        maximized: false,
                        resizing: false,
                    },
                },
            )
        },
    }
}

/// Syncing a window twice in a row sends nothing the second time: what the first sync sent is
/// what the window still wants.
pub proof fn law_second_sync_is_quiet(
    window: PresentationWindow,
    synced: Map<u64, WindowPresentationState>,
)
    ensures
        ({
            let (window1, synced1, _) = sync_window_step(window, synced);
            sync_window_step(window1, synced1).2 is None
        }),
{
    let (window1, synced1, _) = sync_window_step(window, synced);
    assert(desired_presentation(window1) == desired_presentation(window));
}

/// A sync pass over windows in order: the windows after it, the remembered presentations, and
/// the requests sent.
pub open spec fn sync_pass(windows: Seq<PresentationWindow>, synced: Map<u64, WindowPresentationState>) -> (
    Seq<PresentationWindow>,
    Map<u64, WindowPresentationState>,
    Seq<PresentationSync>,
)
    decreases windows.len(),
{
    if windows.len() == 0 {
        (seq![], synced, seq![])
    } else {
        let (done, remembered, requests) = sync_pass(windows.drop_last(), synced);
        let (window, remembered, request) = sync_window_step(windows.last(), remembered);
        (
            done.push(window),
            remembered,
            match request {
                Some(request) => requests.push(request),
                None => requests,
            },
        )
    }
}

/// Surfaces of the windows.
pub open spec fn window_surfaces(windows: Seq<PresentationWindow>) -> Set<u64> {
    Set::new(|surface: u64| exists|i: int| 0 <= i < windows.len() && windows[i].surface_id == surface)
}

/// Syncs every window's presentation in order (see [`sync_pass`]) and forgets the presentations
/// of surfaces that no longer have a window. Returns the requests to send, in order.
pub fn window_presentation_sync_system(
    windows: &mut Vec<PresentationWindow>,
    synced: &mut BTreeMap<u64, WindowPresentationState>,
) -> (requests: Vec<PresentationSync>)
    ensures
        ({
            let (after, remembered, sent) = sync_pass(old(windows)@, old(synced)@);
            &&& final(windows)@ == after
            &&& final(synced)@ == remembered.restrict(window_surfaces(old(windows)@))
            &&& requests@ == sent
        }),
{
    let ghost start = windows@;
    let ghost start_synced = synced@;
    let mut requests: Vec<PresentationSync> = Vec::new();
    let mut i: usize = 0;
    while i < windows.len()
        invariant
            i <= windows@.len(),
            windows@.len() == start.len(),
            forall|j: int| i <= j < start.len() ==> windows@[j] == start[j],
            forall|j: int| 0 <= j < i ==> windows@[j].surface_id == start[j].surface_id,
            ({
                let (done, remembered, sent) = sync_pass(start.take(i as int), start_synced);
                &&& windows@.take(i as int) == done
                &&& synced@ == remembered
                &&& requests@ == sent
            }),
        decreases windows.len() - i,
    {
        proof {
            assert(start.take(i + 1).drop_last() =~= start.take(i as int));
        }
        let mut window = windows[i];
        let request = sync_window_presentation(&mut window, synced);
        let ghost before = windows@;
        windows.set(i, window);
        proof {
            assert(windows@.take(i + 1) =~= before.take(i as int).push(window));
        }
        if let Some(request) = request {
            requests.push(request);
        }
        i += 1;
    }
    assert(start.take(i as int) =~= start);
    assert(windows@.take(i as int) =~= windows@);
    let ghost remembered = synced@;
    let mut kept: BTreeMap<u64, WindowPresentationState> = BTreeMap::new();
    let mut j: usize = 0;
    while j < windows.len()
        invariant
            j <= windows@.len(),
            synced@ == remembered,
            windows@.len() == start.len(),
            forall|k: int| 0 <= k < start.len() ==> windows@[k].surface_id == start[k].surface_id,
            kept@ == remembered.restrict(
                Set::new(|surface: u64| exists|k: int| 0 <= k < j && start[k].surface_id == surface),
            ),
        decreases windows.len() - j,
    {
        let surface = windows[j].surface_id;
        if let Some(state) = synced.get(&surface) {
            kept.insert(surface, *state);
        }
        proof {
            let before = Set::new(|s: u64| exists|k: int| 0 <= k < j && start[k].surface_id == s);
            let after = Set::new(|s: u64| exists|k: int| 0 <= k < j + 1 && start[k].surface_id == s);
            assert(after =~= before.insert(surface)) by {
                assert forall|s: u64| after.contains(s) implies before.insert(surface).contains(s) by {
                    let k = choose|k: int| 0 <= k < j + 1 && start[k].surface_id == s;
                    if k < j {
                        assert(before.contains(s));
                    }
                }
                assert(after.contains(surface)) by {
                    assert(start[j as int].surface_id == surface);
                }
            }
            assert(kept@ =~= remembered.restrict(after));
        }
        j += 1;
    }
    assert(window_surfaces(start) =~= Set::new(
        |surface: u64| exists|k: int| 0 <= k < j && start[k].surface_id == surface,
    ));
    *synced = kept;
    requests
}

} // verus!

//! Default window policy, temporary-mode restore stack, and output-background role handling.

#[allow(unused_imports)]
use vstd::prelude::*;

use crate::model::{OutputRecord, WindowLayout, WindowMode, WindowSceneGeometry};
use crate::search::first_index;
use crate::geometry::has_output_name;

verus! {

/// Layout and mode that a window rule (or the configured default) assigns to a window.
#[derive(Clone, Copy, Debug, PartialEq, Eq, Structural)]
pub struct WindowPolicy {
    pub layout: WindowLayout,
    pub mode: WindowMode,
}

impl WindowPolicy {
    /// Policy with the given layout and mode.
    pub fn new(layout: WindowLayout, mode: WindowMode) -> (policy: WindowPolicy)
        ensures
            policy.layout == layout,
            policy.mode == mode,
    {
        WindowPolicy { layout, mode }
    }
}

/// Which default policy a window follows, and whether later rule refreshes may change it.
#[derive(Clone, Copy, Debug, PartialEq, Eq, Structural)]
pub struct WindowPolicyState {
    pub applied: WindowPolicy,
    pub locked: bool,
}

impl WindowPolicyState {
    /// Whether the window's visible layout/mode still equal the applied policy.
    pub open spec fn spec_tracks_current(self, layout: WindowLayout, mode: WindowMode) -> bool {
        self.applied.layout == layout && self.applied.mode == mode
    }

    /// Tests whether the window's visible layout/mode still equal the applied policy.
    pub fn tracks_current(&self, layout: WindowLayout, mode: WindowMode) -> (result: bool)
        ensures
            result == self.spec_tracks_current(layout, mode),
    {
        self.applied.layout == layout && self.applied.mode == mode
    }
}

impl Default for WindowPolicyState {
    fn default() -> (state: WindowPolicyState)
        ensures
            state.applied.layout == WindowLayout::Floating,
            state.applied.mode == WindowMode::Normal,
            !state.locked,
    {
        WindowPolicyState {
            applied: WindowPolicy { layout: WindowLayout::Floating, mode: WindowMode::Normal },
            locked: false,
        }
    }
}

/// Output a fullscreen window is pinned to, if any.
#[derive(Clone, Debug, PartialEq, Eq, Default)]
pub struct WindowFullscreenTarget {
    pub output: Option<String>,
}

/// One saved frame of the temporary-mode restore stack.
#[derive(Clone, Debug, PartialEq, Eq)]
pub struct WindowRestoreState {
    pub geometry: WindowSceneGeometry,
    pub layout: WindowLayout,
    pub mode: WindowMode,
    pub fullscreen_output: Option<String>,
}

/// Stack of restore frames; the last element is the most recently saved frame.
#[derive(Clone, Debug, PartialEq, Eq, Default)]
pub struct WindowRestoreSnapshot {
    pub frames: Vec<WindowRestoreState>,
}

/// Role a window plays on the desktop.
#[derive(Clone, Copy, Debug, PartialEq, Eq, Structural)]
pub enum WindowRole {
    Managed,
    OutputBackground,
}

/// Marks a window as the background of one output, with the state to restore afterwards.
#[derive(Clone, Debug, PartialEq, Eq)]
pub struct OutputBackgroundWindow {
    pub output: u64,
    pub restore: WindowRestoreState,
}

/// Copies an optional output name.
pub fn clone_output_name(name: &Option<String>) -> (result: Option<String>)
    ensures
        result == *name,
{
    match name {
        Some(name) => Some(name.clone()),
        None => None,
    }
}

/// Copies one restore frame.
pub fn clone_restore_state(state: &WindowRestoreState) -> (result: WindowRestoreState)
    ensures
        result == *state,
{
    WindowRestoreState {
        geometry: state.geometry,
        layout: state.layout,
        mode: state.mode,
        fullscreen_output: clone_output_name(&state.fullscreen_output),
    }
}

/// Applies a newly resolved default policy and unlocks later refreshes.
pub fn apply_window_policy(
    policy: WindowPolicy,
    layout: &mut WindowLayout,
    mode: &mut WindowMode,
    policy_state: &mut WindowPolicyState,
)
    ensures
        *final(layout) == policy.layout,
        *final(mode) == policy.mode,
        final(policy_state).applied == policy,
        !final(policy_state).locked,
{
    *layout = policy.layout;
    *mode = policy.mode;
    policy_state.applied = policy;
    policy_state.locked = false;
}

/// Restore frames after a policy refresh: frames that were saved under the previous policy now
/// carry the new one.
pub open spec fn refreshed_frame(
    frame: WindowRestoreState,
    previous: WindowPolicy,
    policy: WindowPolicy,
) -> WindowRestoreState {
    if frame.layout == previous.layout && frame.mode == previous.mode {
        WindowRestoreState { layout: policy.layout, mode: policy.mode, ..frame }
    } else {
        frame
    }
}

/// Every frame of the stack refreshed from `previous` to `policy`.
pub open spec fn refreshed_frames(
    frames: Seq<WindowRestoreState>,
    previous: WindowPolicy,
    policy: WindowPolicy,
) -> Seq<WindowRestoreState> {
    frames.map_values(|frame: WindowRestoreState| refreshed_frame(frame, previous, policy))
}

fn refresh_restore_snapshot_policy(
    restore: &mut WindowRestoreSnapshot,
    previous: WindowPolicy,
    policy: WindowPolicy,
)
    ensures
        final(restore).frames@ == refreshed_frames(old(restore).frames@, previous, policy),
{
    let mut frames: Vec<WindowRestoreState> = Vec::new();
    let mut i: usize = 0;
    while i < restore.frames.len()
        invariant
            i <= restore.frames.len(),
            restore.frames@ == old(restore).frames@,
            frames@ == refreshed_frames(restore.frames@.take(i as int), previous, policy),
        decreases restore.frames.len() - i,
    {
        let frame = &restore.frames[i];
        let mut next = clone_restore_state(frame);
        if frame.layout == previous.layout && frame.mode == previous.mode {
            next.layout = policy.layout;
            next.mode = policy.mode;
        }
        frames.push(next);
        proof {
            assert(restore.frames@.take(i + 1) == restore.frames@.take(i as int).push(
                restore.frames@[i as int],
            ));
        }
        i += 1;
    }
    proof {
        assert(restore.frames@.take(i as int) == restore.frames@);
    }
    restore.frames = frames;
}

/// Refreshes a window's default policy after its metadata changed.
///
/// The visible layout/mode follow the new policy only while they still equal the applied one;
/// restore frames saved under the old policy are moved to the new one. A locked policy ignores
/// refreshes entirely.
pub fn refresh_window_policy(
    policy: WindowPolicy,
    layout: &mut WindowLayout,
    mode: &mut WindowMode,
    restore: &mut WindowRestoreSnapshot,
    policy_state: &mut WindowPolicyState,
)
    ensures
        old(policy_state).locked ==> {
            &&& *final(layout) == *old(layout)
            &&& *final(mode) == *old(mode)
            &&& *final(restore) == *old(restore)
            &&& *final(policy_state) == *old(policy_state)
        },
        !old(policy_state).locked ==> {
            &&& *final(layout) == (if old(policy_state).spec_tracks_current(
                *old(layout),
                *old(mode),
            ) {
                policy.layout
            } else {
                *old(layout)
            })
            &&& *final(mode) == (if old(policy_state).spec_tracks_current(
                *old(layout),
                *old(mode),
            ) {
                policy.mode
            } else {
                *old(mode)
            })
            &&& final(restore).frames@ == refreshed_frames(
                old(restore).frames@,
                old(policy_state).applied,
                policy,
            )
            &&& final(policy_state).applied == policy
            &&& !final(policy_state).locked
        },
{
    if policy_state.locked {
        return ;
    }
    let previous = policy_state.applied;
    if policy_state.tracks_current(*layout, *mode) {
        *layout = policy.layout;
        *mode = policy.mode;
    }
    refresh_restore_snapshot_policy(restore, previous, policy);
    policy_state.applied = policy;
}

/// Pins the window's current layout/mode as its policy so later rule refreshes leave it alone.
pub fn lock_window_policy(
    layout: WindowLayout,
    mode: WindowMode,
    policy_state: &mut WindowPolicyState,
)
    ensures
        final(policy_state).applied == (WindowPolicy { layout, mode }),
        final(policy_state).locked,
{
    policy_state.applied = WindowPolicy::new(layout, mode);
    policy_state.locked = true;
}

/// Restores the visible layout/mode to the stored default policy.
pub fn restore_window_policy(
    policy_state: &WindowPolicyState,
    layout: &mut WindowLayout,
    mode: &mut WindowMode,
)
    ensures
        *final(layout) == policy_state.applied.layout,
        *final(mode) == policy_state.applied.mode,
{
    *layout = policy_state.applied.layout;
    *mode = policy_state.applied.mode;
}

/// The part of a window's state that temporary modes save and restore.
pub struct TemporaryModeState {
    pub scene_geometry: WindowSceneGeometry,
    pub fullscreen_output: Option<String>,
    pub frames: Seq<WindowRestoreState>,
    pub layout: WindowLayout,
    pub mode: WindowMode,
}

/// State after entering `target_mode` (pinned to `target_output`): a frame capturing the current
/// state is pushed unless the window already is in `target_mode`.
pub open spec fn entered(
    state: TemporaryModeState,
    target_mode: WindowMode,
    target_output: Option<String>,
) -> TemporaryModeState {
    TemporaryModeState {
        frames: if state.mode != target_mode {
            state.frames.push(
                WindowRestoreState {
                    geometry: state.scene_geometry,
                    layout: state.layout,
                    mode: state.mode,
                    fullscreen_output: state.fullscreen_output,
                },
            )
        } else {
            state.frames
        },
        mode: target_mode,
        fullscreen_output: target_output,
        ..state
    }
}

/// State after leaving one temporary mode: the most recent frame is popped and applied, or, with
/// an empty stack, the default policy is applied and the fullscreen pin cleared.
pub open spec fn restored(state: TemporaryModeState, policy: WindowPolicy) -> TemporaryModeState {
    if state.frames.len() > 0 {
        let top = state.frames.last();
        TemporaryModeState {
            scene_geometry: top.geometry,
            fullscreen_output: top.fullscreen_output,
            frames: state.frames.drop_last(),
            layout: top.layout,
            mode: top.mode,
        }
    } else {
        TemporaryModeState {
            fullscreen_output: None,
            layout: policy.layout,
            mode: policy.mode,
            ..state
        }
    }
}

/// Saves the current state on the restore stack before entering a temporary mode.
///
/// Re-entering the mode the window already is in pushes nothing, so repeated maximize or
/// fullscreen requests keep the original restore point.
pub fn enter_temporary_window_mode(
    scene_geometry: &WindowSceneGeometry,
    fullscreen_target: &mut WindowFullscreenTarget,
    restore: &mut WindowRestoreSnapshot,
    layout: WindowLayout,
    mode: &mut WindowMode,
    target_mode: WindowMode,
    target_fullscreen_output: Option<String>,
)
    ensures
        ({
            let next = entered(
                TemporaryModeState {
                    scene_geometry: *scene_geometry,
                    fullscreen_output: old(fullscreen_target).output,
                    frames: old(restore).frames@,
                    layout,
                    mode: *old(mode),
                },
                target_mode,
                target_fullscreen_output,
            );
            &&& final(restore).frames@ == next.frames
            &&& *final(mode) == next.mode
            &&& final(fullscreen_target).output == next.fullscreen_output
        }),
{
    if *mode != target_mode {
        let frame = WindowRestoreState {
            geometry: *scene_geometry,
            layout,
            mode: *mode,
            fullscreen_output: clone_output_name(&fullscreen_target.output),
        };
        restore.frames.push(frame);
    }
    *mode = target_mode;
    fullscreen_target.output = target_fullscreen_output;
}

/// Leaves one temporary mode: pops and applies the most recent restore frame, or falls back to
/// the default policy when the stack is empty.
pub fn restore_window_state(
    policy_state: &WindowPolicyState,
    scene_geometry: &mut WindowSceneGeometry,
    fullscreen_target: &mut WindowFullscreenTarget,
    restore: &mut WindowRestoreSnapshot,
    layout: &mut WindowLayout,
    mode: &mut WindowMode,
)
    ensures
        ({
            let next = restored(
                TemporaryModeState {
                    scene_geometry: *old(scene_geometry),
                    fullscreen_output: old(fullscreen_target).output,
                    frames: old(restore).frames@,
                    layout: *old(layout),
                    mode: *old(mode),
                },
                policy_state.applied,
            );
            &&& *final(scene_geometry) == next.scene_geometry
            &&& final(fullscreen_target).output == next.fullscreen_output
            &&& final(restore).frames@ == next.frames
            &&& *final(layout) == next.layout
            &&& *final(mode) == next.mode
        }),
{
    match restore.frames.pop() {
        Some(restored) => {
            *scene_geometry = restored.geometry;
            fullscreen_target.output = restored.fullscreen_output;
            *layout = restored.layout;
            *mode = restored.mode;
        },
        None => {
            restore_window_policy(policy_state, layout, mode);
            fullscreen_target.output = None;
        },
    }
}

/// Entering a temporary mode and leaving it again gives back exactly the state before: geometry,
/// fullscreen pin, restore stack, layout, and mode (when the window was not already in that mode).
pub proof fn law_enter_then_restore_round_trips(
    state: TemporaryModeState,
    target_mode: WindowMode,
    target_output: Option<String>,
    policy: WindowPolicy,
)
    requires
        state.mode != target_mode,
    ensures
        restored(entered(state, target_mode, target_output), policy) == state,
{
    let e = entered(state, target_mode, target_output);
    assert(e.frames.drop_last() =~= state.frames);
}

/// Entering the mode a window is already in leaves its restore stack untouched.
pub proof fn law_reentering_same_mode_keeps_restore_point(
    state: TemporaryModeState,
    target_output: Option<String>,
)
    ensures
        entered(state, state.mode, target_output).frames == state.frames,
        entered(state, state.mode, target_output).scene_geometry == state.scene_geometry,
{
}

/// Nested temporary modes unwind in last-in-first-out order: after entering two different modes
/// and leaving twice, the window is back in its original state.
pub proof fn law_nested_modes_restore_lifo(
    state: TemporaryModeState,
    first_mode: WindowMode,
    first_output: Option<String>,
    intermediate_geometry: WindowSceneGeometry,
    second_mode: WindowMode,
    second_output: Option<String>,
    policy: WindowPolicy,
)
    requires
        state.mode != first_mode,
        first_mode != second_mode,
    ensures
        ({
            let one = entered(state, first_mode, first_output);
            let moved = TemporaryModeState { scene_geometry: intermediate_geometry, ..one };
            let two = entered(moved, second_mode, second_output);
            &&& restored(two, policy) == moved
            &&& restored(restored(two, policy), policy) == state
        }),
{
    let one = entered(state, first_mode, first_output);
    let moved = TemporaryModeState { scene_geometry: intermediate_geometry, ..one };
    law_enter_then_restore_round_trips(moved, second_mode, second_output, policy);
    assert(restored(moved, policy).frames =~= state.frames);
}

/// Owned view of the window fields that the output-background role rewrites.
pub struct WindowBackgroundState {
    pub role: WindowRole,
    pub scene_geometry: WindowSceneGeometry,
    pub fullscreen_target: WindowFullscreenTarget,
    pub layout: WindowLayout,
    pub mode: WindowMode,
}

impl WindowBackgroundState {
    /// Bundles the fields that the background role rewrites.
    pub fn new(
        role: WindowRole,
        scene_geometry: WindowSceneGeometry,
        fullscreen_target: WindowFullscreenTarget,
        layout: WindowLayout,
        mode: WindowMode,
    ) -> (state: WindowBackgroundState)
        ensures
            state.role == role,
            state.scene_geometry == scene_geometry,
            state.fullscreen_target == fullscreen_target,
            state.layout == layout,
            state.mode == mode,
    {
        WindowBackgroundState { role, scene_geometry, fullscreen_target, layout, mode }
    }
}

/// How the output-background component of a window must change.
#[derive(Clone, Debug, PartialEq, Eq)]
pub enum BackgroundRoleChange {
    Unchanged,
    Insert(OutputBackgroundWindow),
    Remove,
}

/// Output id of the current background component, if any.
pub open spec fn background_output(current: Option<OutputBackgroundWindow>) -> Option<u64> {
    match current {
        Some(background) => Some(background.output),
        None => None,
    }
}

/// Background component change and window fields after syncing the background role to
/// `desired_output`.
pub open spec fn background_sync(
    desired_output: Option<u64>,
    window: WindowBackgroundState,
    current_background: Option<OutputBackgroundWindow>,
) -> (BackgroundRoleChange, WindowBackgroundState) {
    if desired_output == background_output(current_background) {
        (BackgroundRoleChange::Unchanged, window)
    } else {
        match desired_output {
            Some(output) => (
                BackgroundRoleChange::Insert(
                    OutputBackgroundWindow {
                        output,
                        restore: match current_background {
                            Some(background) => background.restore,
                            None => saved_state(window),
                        },
                    },
                ),
                as_background(window),
            ),
            None => (
                BackgroundRoleChange::Remove,
                released(window, current_background.unwrap().restore),
            ),
        }
    }
}

/// Makes a window the background of `desired_output`, or releases it when `desired_output` is
/// `None`, returning how the background component must change.
///
/// Becoming a background saves the current geometry/layout/mode/fullscreen pin (or keeps the
/// restore point of an existing background role) and switches to fullscreen; releasing restores
/// the saved state and the managed role.
pub fn sync_window_background_role(
    desired_output: Option<u64>,
    window: &mut WindowBackgroundState,
    current_background: Option<OutputBackgroundWindow>,
) -> (change: BackgroundRoleChange)
    ensures
        desired_output == background_output(current_background) ==> {
            &&& change == BackgroundRoleChange::Unchanged
            &&& *final(window) == *old(window)
        },
        desired_output != background_output(current_background) ==> match desired_output {
            Some(output) => {
                &&& change == BackgroundRoleChange::Insert(
                    OutputBackgroundWindow {
                        output,
                        restore: match current_background {
                            Some(background) => background.restore,
                            None => saved_state(*old(window)),
                        },
                    },
                )
                &&& *final(window) == as_background(*old(window))
            },
            None => {
                let background = current_background.unwrap();
                &&& change == BackgroundRoleChange::Remove
                &&& *final(window) == released(*old(window), background.restore)
            },
        },
        (change, *final(window)) == background_sync(desired_output, *old(window), current_background),
{
    let current_output = match &current_background {
        Some(background) => Some(background.output),
        None => None,
    };
    if desired_output == current_output {
        return BackgroundRoleChange::Unchanged;
    }
    match desired_output {
        Some(output) => {
            let restore = match current_background {
                Some(background) => background.restore,
                None => WindowRestoreState {
                    geometry: window.scene_geometry,
                    layout: window.layout,
                    mode: window.mode,
                    fullscreen_output: clone_output_name(&window.fullscreen_target.output),
                },
            };
            window.mode = WindowMode::Fullscreen;
            window.role = WindowRole::OutputBackground;
            BackgroundRoleChange::Insert(OutputBackgroundWindow { output, restore })
        },
        None => {
            match current_background {
                Some(background) => {
                    window.scene_geometry = background.restore.geometry;
                    window.fullscreen_target.output = background.restore.fullscreen_output;
                    window.layout = background.restore.layout;
                    window.mode = background.restore.mode;
                    window.role = WindowRole::Managed;
                    BackgroundRoleChange::Remove
                },
                None => BackgroundRoleChange::Unchanged,
            }
        },
    }
}

/// Resolves the id of the output named `desired_output`.
pub fn resolve_background_output_id(
    outputs: &Vec<OutputRecord>,
    desired_output: Option<&String>,
) -> (result: Option<u64>)
    ensures
        desired_output is None ==> result is None,
        desired_output matches Some(name) ==> result == (match first_index(
            outputs@,
            has_output_name(name@),
        ) {
            Some(i) => Some(outputs@[i].id),
            None => None::<u64>,
        }),
{
    let name = match desired_output {
        Some(name) => name,
        None => return None,
    };
    proof {
        crate::search::lemma_first_index_bounds(outputs@, has_output_name(name@), 0);
    }
    let found = crate::geometry::find_output_by_name(outputs, name);
    match found {
        Some(i) => {
            Some(outputs[i].id)
        },
        None => None,
    }
}

/// State saved when a window becomes an output background.
pub open spec fn saved_state(window: WindowBackgroundState) -> WindowRestoreState {
    WindowRestoreState {
        geometry: window.scene_geometry,
        layout: window.layout,
        mode: window.mode,
        fullscreen_output: window.fullscreen_target.output,
    }
}

/// Window fields after it became an output background.
pub open spec fn as_background(window: WindowBackgroundState) -> WindowBackgroundState {
    WindowBackgroundState { mode: WindowMode::Fullscreen, role: WindowRole::OutputBackground, ..window }
}

/// Window fields after its background role was released with the given restore point.
pub open spec fn released(
    window: WindowBackgroundState,
    restore: WindowRestoreState,
) -> WindowBackgroundState {
    WindowBackgroundState {
        role: WindowRole::Managed,
        scene_geometry: restore.geometry,
        fullscreen_target: WindowFullscreenTarget { output: restore.fullscreen_output },
        layout: restore.layout,
        mode: restore.mode,
    }
}

/// Making a managed window an output background and then releasing it gives back its geometry,
/// layout, mode, fullscreen pin, and role.
pub proof fn law_background_round_trip(window: WindowBackgroundState)
    requires
        window.role == WindowRole::Managed,
    ensures
        released(as_background(window), saved_state(window)) == window,
{
}

} // verus!

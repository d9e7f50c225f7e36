//! The per-surface presentation snapshot handed to rendering: for every window, popup and layer
//! surface, whether it is visible, on which output, with which rectangle, and whether it takes
//! input and damage.

#[allow(unused_imports)]
use vstd::prelude::*;
use std::collections::BTreeMap;
use crate::model::{SurfaceGeometry, WindowMode};
use crate::search::{first_index, first_index_from, lemma_first_index_bounds};
use crate::window_policy::WindowRole;

verus! {

/// What kind of surface a presentation entry describes.
#[derive(Clone, Copy, Debug, PartialEq, Eq, Structural)]
pub enum SurfacePresentationRole {
    Window,
    OutputBackground,
    Popup,
    Layer,
}

/// How one surface is presented.
#[derive(Clone, Copy, Debug, PartialEq, Eq, Structural)]
pub struct SurfacePresentationState {
    pub visible: bool,
    pub target_output: Option<u64>,
    pub geometry: SurfaceGeometry,
    pub input_enabled: bool,
    pub damage_enabled: bool,
    pub role: SurfacePresentationRole,
}

/// A live output.
#[derive(Clone, Debug, PartialEq, Eq)]
pub struct SnapshotOutput {
    pub entity: u64,
    pub id: u64,
    pub name: String,
}

/// A window as the snapshot sees it.
#[derive(Clone, Copy, Debug, PartialEq, Eq, Structural)]
pub struct SnapshotWindow {
    pub entity: u64,
    pub surface_id: u64,
    pub role: WindowRole,
    pub mode: WindowMode,
    /// Output the window is the background of.
    pub background_output: Option<u64>,
    pub viewport_visible: bool,
    pub viewport_output: Option<u64>,
    pub geometry: SurfaceGeometry,
    /// Whether the window is an X11 helper surface (it takes no input).
    pub x11_helper: bool,
}

/// A popup as the snapshot sees it.
#[derive(Clone, Copy, Debug, PartialEq, Eq, Structural)]
pub struct SnapshotPopup {
    pub entity: u64,
    pub surface_id: u64,
    /// Entity of the parent window or popup.
    pub parent: u64,
    pub geometry: SurfaceGeometry,
    pub attached: bool,
}

/// A layer surface as the snapshot sees it.
#[derive(Clone, Debug, PartialEq, Eq)]
pub struct SnapshotLayer {
    pub surface_id: u64,
    pub geometry: SurfaceGeometry,
    pub attached: bool,
    /// Output entity the layer is bound to.
    pub layer_output: Option<u64>,
    pub desired_output_name: Option<String>,
}

/// Whether an output id is live.
pub open spec fn live(outputs: Seq<SnapshotOutput>, id: u64) -> bool {
    exists|i: int| 0 <= i < outputs.len() && outputs[i].id == id
}

/// An id kept only when it is live.
pub open spec fn if_live(outputs: Seq<SnapshotOutput>, id: Option<u64>) -> Option<u64> {
    match id {
        Some(id) => if live(outputs, id) {
            Some(id)
        } else {
            None
        },
        None => None,
    }
}

/// Presentation of a window: an output background is shown on its output (when live and not
/// hidden); a managed window is shown when not hidden and visible through a viewport, on the
/// output that shows it (when live). A visible managed window takes input unless it is an X11
/// helper surface; any visible window takes damage.
pub open spec fn window_state(outputs: Seq<SnapshotOutput>, window: SnapshotWindow) -> SurfacePresentationState {
    let background = window.role == WindowRole::OutputBackground;
    let target = if_live(
        outputs,
        if window.background_output is Some {
            window.background_output
        } else {
            window.viewport_output
        },
    );
    let visible = if background {
        window.mode != WindowMode::Hidden && target is Some
    } else {
        window.mode != WindowMode::Hidden && window.viewport_visible
    };
    SurfacePresentationState {
        visible,
        target_output: target,
        geometry: window.geometry,
        input_enabled: visible && window.role == WindowRole::Managed && !window.x11_helper,
        damage_enabled: visible,
        role: if background {
            SurfacePresentationRole::OutputBackground
        } else {
            SurfacePresentationRole::Window
        },
    }
}

/// Window with a given entity.
pub open spec fn snapshot_window_is(entity: u64) -> spec_fn(SnapshotWindow) -> bool {
    |window: SnapshotWindow| window.entity == entity
}

/// Popup with a given entity.
pub open spec fn snapshot_popup_is(entity: u64) -> spec_fn(SnapshotPopup) -> bool {
    |popup: SnapshotPopup| popup.entity == entity
}

/// Visibility and output of the surface `entity`: a window's own; a popup is visible when its
/// buffer is attached and its parent is visible, on its parent's output, following at most
/// `fuel` popup parents. None when the chain never reaches a window. Entities are unique.
pub open spec fn surface_visibility(
    outputs: Seq<SnapshotOutput>,
    windows: Seq<SnapshotWindow>,
    popups: Seq<SnapshotPopup>,
    entity: u64,
    fuel: nat,
) -> Option<(bool, Option<u64>)>
    decreases fuel,
{
    match first_index(windows, snapshot_window_is(entity)) {
        Some(w) => {
            let state = window_state(outputs, windows[w]);
            Some((state.visible, state.target_output))
        },
        None => match first_index(popups, snapshot_popup_is(entity)) {
            Some(p) => if fuel == 0 {
                None
            } else {
                match surface_visibility(outputs, windows, popups, popups[p].parent, (fuel - 1) as nat) {
                    Some((parent_visible, target)) => Some((popups[p].attached && parent_visible, target)),
                    None => None,
                }
            },
            None => None,
        },
    }
}

/// Presentation of a popup: visible when attached under a visible parent, on the parent's
/// output; a popup whose parent chain never reaches a window is hidden on no output.
pub open spec fn popup_state(
    outputs: Seq<SnapshotOutput>,
    windows: Seq<SnapshotWindow>,
    popups: Seq<SnapshotPopup>,
    popup: SnapshotPopup,
) -> SurfacePresentationState {
    let (visible, target) = match surface_visibility(outputs, windows, popups, popup.parent, popups.len()) {
        Some((parent_visible, target)) => (popup.attached && parent_visible, target),
        None => (false, None),
    };
    SurfacePresentationState {
        visible,
        target_output: target,
        geometry: popup.geometry,
        input_enabled: visible,
        damage_enabled: visible,
        role: SurfacePresentationRole::Popup,
    }
}

/// Output with a given entity.
pub open spec fn output_entity_is(entity: u64) -> spec_fn(SnapshotOutput) -> bool {
    |output: SnapshotOutput| output.entity == entity
}

/// Id of the last output with a given name.
pub open spec fn last_output_named(outputs: Seq<SnapshotOutput>, name: Seq<char>) -> Option<u64>
    decreases outputs.len(),
{
    if outputs.len() == 0 {
        None
    } else if outputs.last().name@ == name {
        Some(outputs.last().id)
    } else {
        last_output_named(outputs.drop_last(), name)
    }
}

/// Presentation of a layer: shown when attached on its output (the bound output entity, else
/// the output it names, else the primary output), when that output is live.
pub open spec fn layer_state(
    outputs: Seq<SnapshotOutput>,
    primary: Option<u64>,
    layer: SnapshotLayer,
) -> SurfacePresentationState {
    let by_entity = match layer.layer_output {
        Some(entity) => match first_index(outputs, output_entity_is(entity)) {
            Some(i) => Some(outputs[i].id),
            None => None,
        },
        None => None,
    };
    let by_name = match layer.desired_output_name {
        Some(name) => last_output_named(outputs, name@),
        None => None,
    };
    let target = if_live(
        outputs,
        if by_entity is Some {
            by_entity
        } else if by_name is Some {
            by_name
        } else {
            primary
        },
    );
    let visible = layer.attached && target is Some;
    SurfacePresentationState {
        visible,
        target_output: target,
        geometry: layer.geometry,
        input_enabled: visible,
        damage_enabled: visible,
        role: SurfacePresentationRole::Layer,
    }
}

/// Smallest live output id.
pub open spec fn smallest_output_id(outputs: Seq<SnapshotOutput>) -> Option<u64>
    decreases outputs.len(),
{
    if outputs.len() == 0 {
        None
    } else {
        match smallest_output_id(outputs.drop_last()) {
            Some(id) => if outputs.last().id < id {
                Some(outputs.last().id)
            } else {
                Some(id)
            },
            None => Some(outputs.last().id),
        }
    }
}

/// The snapshot after the windows, in order (a later surface with the same id replaces an
/// earlier one).
pub open spec fn windows_snapshot(outputs: Seq<SnapshotOutput>, windows: Seq<SnapshotWindow>, n: int) -> Map<
    u64,
    SurfacePresentationState,
>
    decreases n,
{
    if n <= 0 {
        Map::empty()
    } else {
        windows_snapshot(outputs, windows, n - 1).insert(
            windows[n - 1].surface_id,
            window_state(outputs, windows[n - 1]),
        )
    }
}

/// The snapshot after the popups, in order, on top of `base`.
pub open spec fn popups_snapshot(
    outputs: Seq<SnapshotOutput>,
    windows: Seq<SnapshotWindow>,
    popups: Seq<SnapshotPopup>,
    base: Map<u64, SurfacePresentationState>,
    n: int,
) -> Map<u64, SurfacePresentationState>
    decreases n,
{
    if n <= 0 {
        base
    } else {
        popups_snapshot(outputs, windows, popups, base, n - 1).insert(
            popups[n - 1].surface_id,
            popup_state(outputs, windows, popups, popups[n - 1]),
        )
    }
}

/// The snapshot after the layers, in order, on top of `base`.
pub open spec fn layers_snapshot(
    outputs: Seq<SnapshotOutput>,
    primary: Option<u64>,
    layers: Seq<SnapshotLayer>,
    base: Map<u64, SurfacePresentationState>,
    n: int,
) -> Map<u64, SurfacePresentationState>
    decreases n,
{
    if n <= 0 {
        base
    } else {
        layers_snapshot(outputs, primary, layers, base, n - 1).insert(
            layers[n - 1].surface_id,
            layer_state(outputs, primary, layers[n - 1]),
        )
    }
}

/// The whole snapshot: windows, then popups, then layers. The primary output is the one the
/// session names, else the smallest live output id.
pub open spec fn presentation_snapshot(
    outputs: Seq<SnapshotOutput>,
    session_primary: Option<u64>,
    windows: Seq<SnapshotWindow>,
    popups: Seq<SnapshotPopup>,
    layers: Seq<SnapshotLayer>,
) -> Map<u64, SurfacePresentationState> {
    let primary = if session_primary is Some {
        session_primary
    } else {
        smallest_output_id(outputs)
    };
    let with_windows = windows_snapshot(outputs, windows, windows.len() as int);
    let with_popups = popups_snapshot(outputs, windows, popups, with_windows, popups.len() as int);
    layers_snapshot(outputs, primary, layers, with_popups, layers.len() as int)
}

fn output_is_live(outputs: &Vec<SnapshotOutput>, id: u64) -> (result: bool)
    ensures
        result == live(outputs@, id),
{
    let mut i: usize = 0;
    while i < outputs.len()
        invariant
            i <= outputs@.len(),
            forall|j: int| 0 <= j < i ==> outputs@[j].id != id,
        decreases outputs.len() - i,
    {
        if outputs[i].id == id {
            return true;
        }
        i += 1;
    }
    false
}

fn keep_live(outputs: &Vec<SnapshotOutput>, id: Option<u64>) -> (result: Option<u64>)
    ensures
        result == if_live(outputs@, id),
{
    match id {
        Some(id) => if output_is_live(outputs, id) {
            Some(id)
        } else {
            None
        },
        None => None,
    }
}

fn compute_window_state(outputs: &Vec<SnapshotOutput>, window: &SnapshotWindow) -> (state: SurfacePresentationState)
    ensures
        state == window_state(outputs@, *window),
{
    let background = window.role == WindowRole::OutputBackground;
    let target = keep_live(
        outputs,
        if window.background_output.is_some() {
            window.background_output
        } else {
            window.viewport_output
        },
    );
    let visible = if background {
        window.mode != WindowMode::Hidden && target.is_some()
    } else {
        window.mode != WindowMode::Hidden && window.viewport_visible
    };
    SurfacePresentationState {
        visible,
        target_output: target,
        geometry: window.geometry,
        input_enabled: visible && window.role == WindowRole::Managed && !window.x11_helper,
        damage_enabled: visible,
        role: if background {
            SurfacePresentationRole::OutputBackground
        } else {
            SurfacePresentationRole::Window
        },
    }
}

fn find_snapshot_window(windows: &Vec<SnapshotWindow>, entity: u64) -> (index: Option<usize>)
    ensures
        match index {
            Some(i) => first_index(windows@, snapshot_window_is(entity)) == Some(i as int) && i < windows@.len(),
            None => first_index(windows@, snapshot_window_is(entity)) is None,
        },
{
    proof {
        lemma_first_index_bounds(windows@, snapshot_window_is(entity), 0);
    }
    let mut i: usize = 0;
    while i < windows.len()
        invariant
            i <= windows@.len(),
            first_index(windows@, snapshot_window_is(entity)) == first_index_from(windows@, snapshot_window_is(entity), i as int),
        decreases windows.len() - i,
    {
        if windows[i].entity == entity {
            return Some(i);
        }
        i += 1;
    }
    None
}

fn find_snapshot_popup(popups: &Vec<SnapshotPopup>, entity: u64) -> (index: Option<usize>)
    ensures
        match index {
            Some(i) => first_index(popups@, snapshot_popup_is(entity)) == Some(i as int) && i < popups@.len(),
            None => first_index(popups@, snapshot_popup_is(entity)) is None,
        },
{
    proof {
        lemma_first_index_bounds(popups@, snapshot_popup_is(entity), 0);
    }
    let mut i: usize = 0;
    while i < popups.len()
        invariant
            i <= popups@.len(),
            first_index(popups@, snapshot_popup_is(entity)) == first_index_from(popups@, snapshot_popup_is(entity), i as int),
        decreases popups.len() - i,
    {
        if popups[i].entity == entity {
            return Some(i);
        }
        i += 1;
    }
    None
}

fn compute_visibility(
    outputs: &Vec<SnapshotOutput>,
    windows: &Vec<SnapshotWindow>,
    popups: &Vec<SnapshotPopup>,
    entity: u64,
    fuel: usize,
) -> (result: Option<(bool, Option<u64>)>)
    ensures
        result == surface_visibility(outputs@, windows@, popups@, entity, fuel as nat),
    decreases fuel,
{
    match find_snapshot_window(windows, entity) {
        Some(w) => {
            let state = compute_window_state(outputs, &windows[w]);
            Some((state.visible, state.target_output))
        },
        None => match find_snapshot_popup(popups, entity) {
            Some(p) => {
                if fuel == 0 {
                    None
                } else {
                    match compute_visibility(outputs, windows, popups, popups[p].parent, fuel - 1) {
                        Some((parent_visible, target)) => Some((popups[p].attached && parent_visible, target)),
                        None => None,
                    }
                }
            },
            None => None,
        },
    }
}

fn find_output_entity(outputs: &Vec<SnapshotOutput>, entity: u64) -> (index: Option<usize>)
    ensures
        match index {
            Some(i) => first_index(outputs@, output_entity_is(entity)) == Some(i as int) && i < outputs@.len(),
            None => first_index(outputs@, output_entity_is(entity)) is None,
        },
{
    proof {
        lemma_first_index_bounds(outputs@, output_entity_is(entity), 0);
    }
    let mut i: usize = 0;
    while i < outputs.len()
        invariant
            i <= outputs@.len(),
            first_index(outputs@, output_entity_is(entity)) == first_index_from(outputs@, output_entity_is(entity), i as int),
        decreases outputs.len() - i,
    {
        if outputs[i].entity == entity {
            return Some(i);
        }
        i += 1;
    }
    None
}

fn find_last_output_named(outputs: &Vec<SnapshotOutput>, name: &String) -> (id: Option<u64>)
    ensures
        id == last_output_named(outputs@, name@),
{
    let mut i: usize = outputs.len();
    assert(outputs@.take(i as int) =~= outputs@);
    while i > 0
        invariant
            i <= outputs@.len(),
            last_output_named(outputs@, name@) == last_output_named(outputs@.take(i as int), name@),
        decreases i,
    {
        proof {
            assert(outputs@.take(i as int).drop_last() =~= outputs@.take(i - 1));
        }
        if outputs[i - 1].name == *name {
            return Some(outputs[i - 1].id);
        }
        i -= 1;
    }
    None
}

fn compute_layer_state(outputs: &Vec<SnapshotOutput>, primary: Option<u64>, layer: &SnapshotLayer) -> (state:
    SurfacePresentationState)
    ensures
        state == layer_state(outputs@, primary, *layer),
{
    let by_entity = match layer.layer_output {
        Some(entity) => match find_output_entity(outputs, entity) {
            Some(i) => Some(outputs[i].id),
            None => None,
        },
        None => None,
    };
    let by_name = match &layer.desired_output_name {
        Some(name) => find_last_output_named(outputs, name),
        None => None,
    };
    let target = keep_live(
        outputs,
        if by_entity.is_some() {
            by_entity
        } else if by_name.is_some() {
            by_name
        } else {
            primary
        },
    );
    let visible = layer.attached && target.is_some();
    SurfacePresentationState {
        visible,
        target_output: target,
        geometry: layer.geometry,
        input_enabled: visible,
        damage_enabled: visible,
        role: SurfacePresentationRole::Layer,
    }
}

fn smallest_id(outputs: &Vec<SnapshotOutput>) -> (id: Option<u64>)
    ensures
        id == smallest_output_id(outputs@),
{
    let mut best: Option<u64> = None;
    let mut i: usize = 0;
    while i < outputs.len()
        invariant
            i <= outputs@.len(),
            best == smallest_output_id(outputs@.take(i as int)),
        decreases outputs.len() - i,
    {
        proof {
            assert(outputs@.take(i + 1).drop_last() =~= outputs@.take(i as int));
        }
        let id = outputs[i].id;
        best = match best {
            Some(current) => if id < current {
                Some(id)
            } else {
                Some(current)
            },
            None => Some(id),
        };
        i += 1;
    }
    assert(outputs@.take(i as int) =~= outputs@);
    best
}

/// Builds the presentation snapshot of every surface; see [`presentation_snapshot`].
pub fn surface_presentation_snapshot_system(
    outputs: &Vec<SnapshotOutput>,
    session_primary: Option<u64>,
    windows: &Vec<SnapshotWindow>,
    popups: &Vec<SnapshotPopup>,
    layers: &Vec<SnapshotLayer>,
) -> (snapshot: BTreeMap<u64, SurfacePresentationState>)
    ensures
        snapshot@ == presentation_snapshot(outputs@, session_primary, windows@, popups@, layers@),
{
    let mut surfaces: BTreeMap<u64, SurfacePresentationState> = BTreeMap::new();
    let mut i: usize = 0;
    while i < windows.len()
        invariant
            i <= windows@.len(),
            surfaces@ == windows_snapshot(outputs@, windows@, i as int),
        decreases windows.len() - i,
    {
        let state = compute_window_state(outputs, &windows[i]);
        surfaces.insert(windows[i].surface_id, state);
        i += 1;
    }
    let ghost with_windows = surfaces@;
    let fuel = popups.len();
    let mut p: usize = 0;
    while p < popups.len()
        invariant
            p <= popups@.len(),
            fuel == popups@.len(),
            with_windows == windows_snapshot(outputs@, windows@, windows@.len() as int),
            surfaces@ == popups_snapshot(outputs@, windows@, popups@, with_windows, p as int),
        decreases popups.len() - p,
    {
        let popup = popups[p];
        let (visible, target) = match compute_visibility(outputs, windows, popups, popup.parent, fuel) {
            Some((parent_visible, target)) => (popup.attached && parent_visible, target),
            None => (false, None),
        };
        let state = SurfacePresentationState {
            visible,
            target_output: target,
            geometry: popup.geometry,
            input_enabled: visible,
            damage_enabled: visible,
            role: SurfacePresentationRole::Popup,
        };
        surfaces.insert(popup.surface_id, state);
        p += 1;
    }
    let ghost with_popups = surfaces@;
    let primary = if session_primary.is_some() {
        session_primary
    } else {
        smallest_id(outputs)
    };
    let mut l: usize = 0;
    while l < layers.len()
        invariant
            l <= layers@.len(),
            primary == (if session_primary is Some {
                session_primary
            } else {
                smallest_output_id(outputs@)
            }),
            with_popups == popups_snapshot(
                outputs@,
                windows@,
                popups@,
                windows_snapshot(outputs@, windows@, windows@.len() as int),
                popups@.len() as int,
            ),
            surfaces@ == layers_snapshot(outputs@, primary, layers@, with_popups, l as int),
        decreases layers.len() - l,
    {
        let state = compute_layer_state(outputs, primary, &layers[l]);
        surfaces.insert(layers[l].surface_id, state);
        l += 1;
    }
    surfaces
}

} // verus!

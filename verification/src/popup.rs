//! XDG popups: creation under a resolved parent, repositioning, commits, grabs, and closing.
//!
//! Creation waits until the parent surface resolves, so that a popup enters the hierarchy under
//! the right parent from the start.

#[allow(unused_imports)]
use vstd::prelude::*;
use std::collections::BTreeSet;
use crate::model::SurfaceGeometry;
use crate::layer::{clamp_i32, i32_saturating_add};
use crate::search::{first_index, first_index_from, lemma_first_index_bounds};

verus! {

/// Marker type documenting the popup subsystem.
#[derive(Clone, Copy, Debug, PartialEq, Eq, Structural)]
pub struct PopupManager;

/// Placement of a popup relative to its parent surface.
#[derive(Clone, Copy, Debug, PartialEq, Eq, Structural)]
pub struct PopupPlacement {
    pub x: i32,
    pub y: i32,
    pub width: i32,
    pub height: i32,
    pub reposition_token: Option<u32>,
}

/// Placement a popup keeps, with sides of at least one.
#[derive(Clone, Copy, Debug, PartialEq, Eq, Structural)]
pub struct PopupSurface {
    pub x: i32,
    pub y: i32,
    pub width: u32,
    pub height: u32,
}

/// Grab state of a popup.
#[derive(Clone, Copy, Debug, PartialEq, Eq, Structural)]
pub struct PopupGrab {
    pub active: bool,
    pub seat_id: u64,
    pub serial: Option<u32>,
}

/// A popup as popup management sees it.
#[derive(Clone, Copy, Debug, PartialEq, Eq, Structural)]
pub struct PopupRecord {
    pub entity: u64,
    pub surface_id: u64,
    pub geometry: SurfaceGeometry,
    pub attached: bool,
    pub content_version: u64,
    pub surface: PopupSurface,
    pub grab: PopupGrab,
    pub parent: u64,
}

/// A surface that popups can be parented to (a window or a popup), as it was when the step
/// began.
#[derive(Clone, Copy, Debug, PartialEq, Eq, Structural)]
pub struct ParentSurface {
    pub entity: u64,
    pub surface_id: u64,
    pub geometry: SurfaceGeometry,
}

/// Size a popup committed.
#[derive(Clone, Copy, Debug, PartialEq, Eq, Structural)]
pub struct PopupExtent {
    pub width: u32,
    pub height: u32,
}

/// A popup lifecycle event.
#[derive(Clone, Copy, Debug, PartialEq, Eq, Structural)]
pub enum PopupEvent {
    Created { parent_surface_id: u64, placement: PopupPlacement },
    Repositioned { placement: PopupPlacement },
    Committed { size: Option<PopupExtent>, attached: bool },
    Grab { seat_id: u64, serial: u32 },
    Closed,
}

/// A popup lifecycle event for a surface.
#[derive(Clone, Copy, Debug, PartialEq, Eq, Structural)]
pub struct PopupRequest {
    pub surface_id: u64,
    pub event: PopupEvent,
}

/// A popup to spawn under `parent`.
#[derive(Clone, Copy, Debug, PartialEq, Eq, Structural)]
pub struct PopupSpawn {
    pub entity: u64,
    pub surface_id: u64,
    pub geometry: SurfaceGeometry,
    pub surface: PopupSurface,
    pub parent: u64,
}

/// A side of at least one pixel.
pub open spec fn unit_side(value: i32) -> u32 {
    if value < 1 {
        1
    } else {
        value as u32
    }
}

/// Placement a popup keeps.
pub open spec fn kept_placement(placement: PopupPlacement) -> PopupSurface {
    PopupSurface {
        x: placement.x,
        y: placement.y,
        width: unit_side(placement.width),
        height: unit_side(placement.height),
    }
}

/// Index of the last element satisfying `pred`.
pub open spec fn last_index<T>(items: Seq<T>, pred: spec_fn(T) -> bool) -> Option<int>
    decreases items.len(),
{
    if items.len() == 0 {
        None
    } else if pred(items.last()) {
        Some(items.len() - 1)
    } else {
        last_index(items.drop_last(), pred)
    }
}

proof fn lemma_last_index_bounds<T>(items: Seq<T>, pred: spec_fn(T) -> bool)
    ensures
        last_index(items, pred) matches Some(i) ==> 0 <= i < items.len() && pred(items[i]),
    decreases items.len(),
{
    if items.len() > 0 && !pred(items.last()) {
        lemma_last_index_bounds(items.drop_last(), pred);
    }
}

/// Parent with a given surface id.
pub open spec fn parent_with_surface(surface_id: u64) -> spec_fn(ParentSurface) -> bool {
    |parent: ParentSurface| parent.surface_id == surface_id
}

/// Parent with a given entity.
pub open spec fn parent_with_entity(entity: u64) -> spec_fn(ParentSurface) -> bool {
    |parent: ParentSurface| parent.entity == entity
}

/// Whether a popup's global geometry can be computed in `i32` from a parent origin.
pub open spec fn geometry_fits(parent: SurfaceGeometry, placement: PopupPlacement) -> bool {
    i32::MIN <= parent.x + placement.x <= i32::MAX && i32::MIN <= parent.y + placement.y
        <= i32::MAX
}

/// Global geometry of a popup placed relative to its parent's geometry (the last one recorded
/// for the parent entity), when the parent has one.
pub open spec fn popup_geometry(
    parents: Seq<ParentSurface>,
    parent_entity: u64,
    placement: PopupPlacement,
) -> Option<SurfaceGeometry> {
    match last_index(parents, parent_with_entity(parent_entity)) {
        Some(k) => Some(
            SurfaceGeometry {
                x: (parents[k].geometry.x + placement.x) as i32,
                y: (parents[k].geometry.y + placement.y) as i32,
                width: unit_side(placement.width),
                height: unit_side(placement.height),
            },
        ),
        None => None,
    }
}

/// Whether the origin of the parent entity's recorded geometry (the last one recorded for it)
/// can take a placement without leaving `i32`; vacuous when the entity has no geometry.
pub open spec fn entity_fits(parents: Seq<ParentSurface>, entity: u64, placement: PopupPlacement) -> bool {
    match last_index(parents, parent_with_entity(entity)) {
        Some(k) => geometry_fits(parents[k].geometry, placement),
        None => true,
    }
}

fn last_parent_with_entity(parents: &Vec<ParentSurface>, entity: u64) -> (index: Option<usize>)
    ensures
        match index {
            Some(k) => last_index(parents@, parent_with_entity(entity)) == Some(k as int),
            None => last_index(parents@, parent_with_entity(entity)) is None,
        },
{
    let mut found: Option<usize> = None;
    let mut i: usize = 0;
    while i < parents.len()
        invariant
            i <= parents@.len(),
            match found {
                Some(k) => last_index(parents@.take(i as int), parent_with_entity(entity)) == Some(
                    k as int,
                ),
                None => last_index(parents@.take(i as int), parent_with_entity(entity)) is None,
            },
        decreases parents.len() - i,
    {
        proof {
            assert(parents@.take(i + 1).drop_last() =~= parents@.take(i as int));
        }
        if parents[i].entity == entity {
            found = Some(i);
        }
        i += 1;
    }
    assert(parents@.take(i as int) =~= parents@);
    found
}

fn last_parent_with_surface(parents: &Vec<ParentSurface>, surface_id: u64) -> (index: Option<usize>)
    ensures
        match index {
            Some(k) => last_index(parents@, parent_with_surface(surface_id)) == Some(k as int),
            None => last_index(parents@, parent_with_surface(surface_id)) is None,
        },
{
    let mut found: Option<usize> = None;
    let mut i: usize = 0;
    while i < parents.len()
        invariant
            i <= parents@.len(),
            match found {
                Some(k) => last_index(parents@.take(i as int), parent_with_surface(surface_id))
                    == Some(k as int),
                None => last_index(parents@.take(i as int), parent_with_surface(surface_id)) is None,
            },
        decreases parents.len() - i,
    {
        proof {
            assert(parents@.take(i + 1).drop_last() =~= parents@.take(i as int));
        }
        if parents[i].surface_id == surface_id {
            found = Some(i);
        }
        i += 1;
    }
    assert(parents@.take(i as int) =~= parents@);
    found
}

/// Converts popup-relative placement coordinates into global surface geometry using the
/// resolved parent surface rectangle; see [`popup_geometry`].
pub fn popup_geometry_for(
    parent_entity: u64,
    placement: PopupPlacement,
    parents: &Vec<ParentSurface>,
) -> (geometry: Option<SurfaceGeometry>)
    requires
        entity_fits(parents@, parent_entity, placement),
    ensures
        geometry == popup_geometry(parents@, parent_entity, placement),
{
    proof {
        lemma_last_index_bounds(parents@, parent_with_entity(parent_entity));
    }
    let k = match last_parent_with_entity(parents, parent_entity) {
        Some(k) => k,
        None => return None,
    };
    let parent = parents[k].geometry;
    Some(
        SurfaceGeometry {
            x: parent.x + placement.x,
            y: parent.y + placement.y,
            width: if placement.width < 1 { 1 } else { placement.width as u32 },
            height: if placement.height < 1 { 1 } else { placement.height as u32 },
        },
    )
}

/// Surface-to-entity entry of the entity index.
#[derive(Clone, Copy, Debug, PartialEq, Eq, Structural)]
pub struct IndexedSurface {
    pub surface_id: u64,
    pub entity: u64,
}

/// Entity the index records for a surface.
pub open spec fn indexed_entity(index: Seq<IndexedSurface>, surface_id: u64) -> Option<u64> {
    match first_index(index, |entry: IndexedSurface| entry.surface_id == surface_id) {
        Some(i) => Some(index[i].entity),
        None => None,
    }
}

/// Parent entity of a popup: the indexed entity of the parent surface, else the last known
/// surface with that id.
pub open spec fn popup_parent(
    index: Seq<IndexedSurface>,
    parents: Seq<ParentSurface>,
    parent_surface_id: u64,
) -> Option<u64> {
    match indexed_entity(index, parent_surface_id) {
        Some(entity) => Some(entity),
        None => match last_index(parents, parent_with_surface(parent_surface_id)) {
            Some(k) => Some(parents[k].entity),
            None => None,
        },
    }
}

fn find_indexed(index: &Vec<IndexedSurface>, surface_id: u64) -> (entity: Option<u64>)
    ensures
        entity == indexed_entity(index@, surface_id),
{
    let ghost pred = |entry: IndexedSurface| entry.surface_id == surface_id;
    proof {
        lemma_first_index_bounds(index@, pred, 0);
    }
    let mut i: usize = 0;
    while i < index.len()
        invariant
            i <= index@.len(),
            pred == (|entry: IndexedSurface| entry.surface_id == surface_id),
            first_index(index@, pred) == first_index_from(index@, pred, i as int),
        decreases index.len() - i,
    {
        if index[i].surface_id == surface_id {
            return Some(index[i].entity);
        }
        i += 1;
    }
    None
}

/// Resolves the popup parent by surface id, preferring the entity index but falling back to the
/// known surfaces while startup bookkeeping is still catching up.
pub fn popup_parent_entity(
    parent_surface_id: u64,
    index: &Vec<IndexedSurface>,
    parents: &Vec<ParentSurface>,
) -> (entity: Option<u64>)
    ensures
        entity == popup_parent(index@, parents@, parent_surface_id),
{
    if let Some(entity) = find_indexed(index, parent_surface_id) {
        return Some(entity);
    }
    proof {
        lemma_last_index_bounds(parents@, parent_with_surface(parent_surface_id));
    }
    match last_parent_with_surface(parents, parent_surface_id) {
        Some(k) => Some(parents[k].entity),
        None => None,
    }
}

/// Popup with a given entity.
pub open spec fn popup_with_entity(entity: u64) -> spec_fn(PopupRecord) -> bool {
    |popup: PopupRecord| popup.entity == entity
}

/// Popup with a given surface.
pub open spec fn popup_with_surface(surface_id: u64) -> spec_fn(PopupRecord) -> bool {
    |popup: PopupRecord| popup.surface_id == surface_id
}

/// Popup an event addresses: the popup with the surface's indexed entity, else the first popup
/// with the surface.
pub open spec fn addressed_popup(
    index: Seq<IndexedSurface>,
    popups: Seq<PopupRecord>,
    surface_id: u64,
) -> Option<int> {
    let by_index = match indexed_entity(index, surface_id) {
        Some(entity) => first_index(popups, popup_with_entity(entity)),
        None => None,
    };
    if by_index is Some {
        by_index
    } else {
        first_index(popups, popup_with_surface(surface_id))
    }
}

fn find_popup_by_entity(popups: &Vec<PopupRecord>, entity: u64) -> (index: Option<usize>)
    ensures
        match index {
            Some(i) => first_index(popups@, popup_with_entity(entity)) == Some(i as int),
            None => first_index(popups@, popup_with_entity(entity)) is None,
        },
{
    let mut i: usize = 0;
    while i < popups.len()
        invariant
            i <= popups@.len(),
            first_index(popups@, popup_with_entity(entity)) == first_index_from(
                popups@,
                popup_with_entity(entity),
                i as int,
            ),
        decreases popups.len() - i,
    {
        if popups[i].entity == entity {
            return Some(i);
        }
        i += 1;
    }
    None
}

fn find_popup_by_surface(popups: &Vec<PopupRecord>, surface_id: u64) -> (index: Option<usize>)
    ensures
        match index {
            Some(i) => first_index(popups@, popup_with_surface(surface_id)) == Some(i as int),
            None => first_index(popups@, popup_with_surface(surface_id)) is None,
        },
{
    let mut i: usize = 0;
    while i < popups.len()
        invariant
            i <= popups@.len(),
            first_index(popups@, popup_with_surface(surface_id)) == first_index_from(
                popups@,
                popup_with_surface(surface_id),
                i as int,
            ),
        decreases popups.len() - i,
    {
        if popups[i].surface_id == surface_id {
            return Some(i);
        }
        i += 1;
    }
    None
}

fn resolve_popup(index: &Vec<IndexedSurface>, popups: &Vec<PopupRecord>, surface_id: u64) -> (found:
    Option<usize>)
    ensures
        match found {
            Some(i) => addressed_popup(index@, popups@, surface_id) == Some(i as int),
            None => addressed_popup(index@, popups@, surface_id) is None,
        },
        found matches Some(i) ==> i < popups@.len(),
{
    if let Some(entity) = find_indexed(index, surface_id) {
        proof {
            lemma_first_index_bounds(popups@, popup_with_entity(entity), 0);
        }
        if let Some(i) = find_popup_by_entity(popups, entity) {
            return Some(i);
        }
    }
    proof {
        lemma_first_index_bounds(popups@, popup_with_surface(surface_id), 0);
    }
    find_popup_by_surface(popups, surface_id)
}

/// A change decided by popup management, applied in order.
#[derive(Clone, Copy, Debug, PartialEq, Eq, Structural)]
pub enum PopupEffect {
    Spawn(PopupSpawn),
    /// Despawn one entity (a closed popup, or one of its descendants).
    Despawn { entity: u64 },
}

/// Parent links (entity, parent entity) of the popups that exist during a run: the recorded
/// popups, then those spawned so far, in order.
pub open spec fn popup_links(popups: Seq<PopupRecord>, effects: Seq<PopupEffect>) -> Seq<(u64, u64)> {
    popups.map_values(|popup: PopupRecord| (popup.entity, popup.parent)) + spawn_links(effects)
}

/// Parent links of the popups spawned by a sequence of effects.
pub open spec fn spawn_links(effects: Seq<PopupEffect>) -> Seq<(u64, u64)>
    decreases effects.len(),
{
    if effects.len() == 0 {
        seq![]
    } else {
        let rest = spawn_links(effects.drop_last());
        match effects.last() {
            PopupEffect::Spawn(spawn) => rest.push((spawn.entity, spawn.parent)),
            PopupEffect::Despawn { .. } => rest,
        }
    }
}

/// Descendants of `entity` along the links, depth first, each child after its own descendants
/// and children in link order; `depth` bounds the walk (the links hold no cycles, so their
/// length suffices).
pub open spec fn subtree(links: Seq<(u64, u64)>, entity: u64, depth: nat) -> Seq<u64>
    decreases depth, 0int,
{
    if depth == 0 {
        seq![]
    } else {
        children_subtrees(links, entity, (depth - 1) as nat, 0)
    }
}

/// Subtrees of the children of `parent` among `links[i..]`, each followed by the child.
pub open spec fn children_subtrees(links: Seq<(u64, u64)>, parent: u64, depth: nat, i: int) -> Seq<u64>
    decreases depth, links.len() - i,
{
    if i < 0 || i >= links.len() {
        seq![]
    } else if links[i].1 == parent {
        subtree(links, links[i].0, depth) + seq![links[i].0] + children_subtrees(links, parent, depth, i + 1)
    } else {
        children_subtrees(links, parent, depth, i + 1)
    }
}

/// Entities a close despawns: the popup's descendants (see [`subtree`]), then the popup.
pub open spec fn closed_entities(links: Seq<(u64, u64)>, entity: u64) -> Seq<u64> {
    subtree(links, entity, links.len()) + seq![entity]
}

/// Despawn effects for entities, in order.
pub open spec fn despawns(entities: Seq<u64>) -> Seq<PopupEffect> {
    entities.map_values(|entity: u64| PopupEffect::Despawn { entity })
}

fn collect_subtree(links: &Vec<(u64, u64)>, entity: u64, depth: usize, out: &mut Vec<u64>)
    ensures
        final(out)@ == old(out)@ + subtree(links@, entity, depth as nat),
    decreases depth, 0int,
{
    if depth == 0 {
        assert(old(out)@ + subtree(links@, entity, 0) =~= old(out)@);
        return;
    }
    collect_children(links, entity, depth - 1, 0, out);
}

fn collect_children(links: &Vec<(u64, u64)>, parent: u64, depth: usize, i: usize, out: &mut Vec<u64>)
    ensures
        final(out)@ == old(out)@ + children_subtrees(links@, parent, depth as nat, i as int),
    decreases depth, links@.len() - i,
{
    if i >= links.len() {
        assert(old(out)@ + children_subtrees(links@, parent, depth as nat, i as int) =~= old(out)@);
        return;
    }
    let (child, child_parent) = links[i];
    if child_parent == parent {
        collect_subtree(links, child, depth, out);
        let ghost middle = out@;
        out.push(child);
        collect_children(links, parent, depth, i + 1, out);
        assert(out@ =~= old(out)@ + (subtree(links@, child, depth as nat) + seq![child]
            + children_subtrees(links@, parent, depth as nat, i + 1)));
    } else {
        collect_children(links, parent, depth, i + 1, out);
    }
}

/// Entities that closing the popup `entity` despawns, over the parent links; see
/// [`closed_entities`].
pub fn popup_descendants(links: &Vec<(u64, u64)>, entity: u64) -> (entities: Vec<u64>)
    ensures
        entities@ == closed_entities(links@, entity),
{
    let mut entities: Vec<u64> = Vec::new();
    collect_subtree(links, entity, links.len(), &mut entities);
    entities.push(entity);
    assert(entities@ =~= closed_entities(links@, entity));
    entities
}

fn current_links(popups: &Vec<PopupRecord>, effects: &Vec<PopupEffect>) -> (links: Vec<(u64, u64)>)
    ensures
        links@ == popup_links(popups@, effects@),
{
    let mut links: Vec<(u64, u64)> = Vec::new();
    let mut p: usize = 0;
    while p < popups.len()
        invariant
            p <= popups@.len(),
            links@ == popups@.take(p as int).map_values(|popup: PopupRecord| (popup.entity, popup.parent)),
        decreases popups.len() - p,
    {
        links.push((popups[p].entity, popups[p].parent));
        proof {
            assert(popups@.take(p + 1) =~= popups@.take(p as int).push(popups@[p as int]));
            assert(links@ =~= popups@.take(p + 1).map_values(|popup: PopupRecord| (popup.entity, popup.parent)));
        }
        p += 1;
    }
    assert(popups@.take(p as int) =~= popups@);
    let ghost recorded = links@;
    let mut k: usize = 0;
    while k < effects.len()
        invariant
            k <= effects@.len(),
            links@ == recorded + spawn_links(effects@.take(k as int)),
        decreases effects.len() - k,
    {
        proof {
            assert(effects@.take(k + 1).drop_last() =~= effects@.take(k as int));
            assert(effects@.take(k + 1).last() == effects@[k as int]);
        }
        match &effects[k] {
            PopupEffect::Spawn(spawn) => {
                links.push((spawn.entity, spawn.parent));
                assert(links@ =~= recorded + spawn_links(effects@.take(k + 1)));
            },
            PopupEffect::Despawn { .. } => {},
        }
        k += 1;
    }
    assert(effects@.take(k as int) =~= effects@);
    links
}

fn push_despawns(effects: &mut Vec<PopupEffect>, entities: &Vec<u64>)
    ensures
        final(effects)@ == old(effects)@ + despawns(entities@),
{
    let mut k: usize = 0;
    while k < entities.len()
        invariant
            k <= entities@.len(),
            effects@ == old(effects)@ + despawns(entities@.take(k as int)),
        decreases entities.len() - k,
    {
        effects.push(PopupEffect::Despawn { entity: entities[k] });
        proof {
            assert(entities@.take(k + 1) =~= entities@.take(k as int).push(entities@[k as int]));
            assert(effects@ =~= old(effects)@ + despawns(entities@.take(k + 1)));
        }
        k += 1;
    }
    assert(entities@.take(k as int) =~= entities@);
}

/// State of popup management over a run of events.
pub struct PopupRun {
    pub popups: Seq<PopupRecord>,
    pub known: Set<u64>,
    pub next_entity: u64,
    pub effects: Seq<PopupEffect>,
    pub deferred: Seq<PopupRequest>,
}

/// Whether the placement an event carries fits, in `i32`, the origin of the parent it is placed
/// against when the step handles it: the resolved parent of a popup being created, the parent of
/// the popup being repositioned.
pub open spec fn event_fits(
    index: Seq<IndexedSurface>,
    parents: Seq<ParentSurface>,
    run: PopupRun,
    request: PopupRequest,
) -> bool {
    match request.event {
        PopupEvent::Created { parent_surface_id, placement } => run.known.contains(request.surface_id)
            || match popup_parent(index, parents, parent_surface_id) {
            Some(parent) => entity_fits(parents, parent, placement),
            None => true,
        },
        PopupEvent::Repositioned { placement } => match addressed_popup(index, run.popups, request.surface_id) {
            Some(i) => entity_fits(parents, run.popups[i].parent, placement),
            None => true,
        },
        _ => true,
    }
}

/// Whether every event of a run fits its parent when its turn comes; see [`event_fits`].
pub open spec fn events_fit(
    index: Seq<IndexedSurface>,
    parents: Seq<ParentSurface>,
    run: PopupRun,
    requests: Seq<PopupRequest>,
) -> bool {
    forall|k: int|
        0 <= k < requests.len() ==> event_fits(
            index,
            parents,
            popup_run(index, parents, run, requests.take(k)),
            #[trigger] requests[k],
        )
}

/// One popup event:
///  - `Created` for a surface not yet known spawns the popup under its resolved parent at the
///    placement relative to the parent's geometry (waiting while either is missing); a second
///    `Created` for a known surface waits;
///  - `Repositioned` moves the addressed popup relative to its parent and keeps the placement;
///  - `Committed` records the attachment, bumps the content version, and sizes a popup that has
///    no size yet;
///  - `Grab` activates the popup grab for the seat and serial;
///  - `Closed` despawns the popup's descendants and then the popup (see [`closed_entities`]); a
///    close for a popup that is known but not there yet waits.
/// Events for popups that are not there yet wait.
pub open spec fn popup_step(
    index: Seq<IndexedSurface>,
    parents: Seq<ParentSurface>,
    run: PopupRun,
    request: PopupRequest,
) -> PopupRun {
    let surface = request.surface_id;
    let wait = PopupRun { deferred: run.deferred.push(request), ..run };
    let addressed = addressed_popup(index, run.popups, surface);
    match request.event {
        PopupEvent::Created { parent_surface_id, placement } => if run.known.contains(surface) {
            wait
        } else {
            match popup_parent(index, parents, parent_surface_id) {
                None => wait,
                Some(parent) => match popup_geometry(parents, parent, placement) {
                    None => wait,
                    Some(geometry) => PopupRun {
                        known: run.known.insert(surface),
                        next_entity: (run.next_entity + 1) as u64,
                        effects: run.effects.push(
                            PopupEffect::Spawn(
                                PopupSpawn {
                                    entity: run.next_entity,
                                    surface_id: surface,
                                    geometry,
                                    surface: kept_placement(placement),
                                    parent,
                                },
                            ),
                        ),
                        ..run
                    },
                },
            }
        },
        PopupEvent::Closed => match addressed {
            Some(i) => PopupRun {
                known: run.known.remove(surface),
                effects: run.effects + despawns(
                    closed_entities(popup_links(run.popups, run.effects), run.popups[i].entity),
                ),
                ..run
            },
            None => if run.known.contains(surface) {
                wait
            } else {
                run
            },
        },
        _ => match addressed {
            None => wait,
            Some(i) => {
                let popup = run.popups[i];
                let updated = match request.event {
                    PopupEvent::Repositioned { placement } => PopupRecord {
                        geometry: match popup_geometry(parents, popup.parent, placement) {
                            Some(geometry) => geometry,
                            None => popup.geometry,
                        },
                        surface: kept_placement(placement),
                        ..popup
                    },
                    PopupEvent::Committed { size, attached } => PopupRecord {
                        geometry: match size {
                            Some(size) => if popup.geometry.width == 0 || popup.geometry.height == 0 {
                                SurfaceGeometry {
                                    width: if size.width == 0 { 1 } else { size.width },
                                    height: if size.height == 0 { 1 } else { size.height },
                                    ..popup.geometry
                                }
                            } else {
                                popup.geometry
                            },
                            None => popup.geometry,
                        },
                        attached,
                        content_version: if popup.content_version == u64::MAX {
                            0
                        } else {
                            (popup.content_version + 1) as u64
                        },
                        ..popup
                    },
                    PopupEvent::Grab { seat_id, serial } => PopupRecord {
                        grab: PopupGrab { active: true, seat_id, serial: Some(serial) },
                        ..popup
                    },
                    _ => popup,
                };
                PopupRun { popups: run.popups.update(i, updated), ..run }
            },
        },
    }
}

/// Outcome of a run of popup events, in order.
pub open spec fn popup_run(
    index: Seq<IndexedSurface>,
    parents: Seq<ParentSurface>,
    run: PopupRun,
    requests: Seq<PopupRequest>,
) -> PopupRun
    decreases requests.len(),
{
    if requests.len() == 0 {
        run
    } else {
        popup_step(index, parents, popup_run(index, parents, run, requests.drop_last()), requests.last())
    }
}

/// Parent surfaces as the step sees them: the windows, then the popups.
pub open spec fn parent_surfaces(windows: Seq<ParentSurface>, popups: Seq<PopupRecord>) -> Seq<
    ParentSurface,
> {
    windows + popups.map_values(
        |popup: PopupRecord|
            ParentSurface { entity: popup.entity, surface_id: popup.surface_id, geometry: popup.geometry },
    )
}

/// Surfaces of the popups.
pub open spec fn popup_surfaces(popups: Seq<PopupRecord>) -> Set<u64> {
    Set::new(|surface: u64| exists|i: int| 0 <= i < popups.len() && popups[i].surface_id == surface)
}

fn apply_popup_event(
    index: &Vec<IndexedSurface>,
    parents: &Vec<ParentSurface>,
    popups: &mut Vec<PopupRecord>,
    known: &mut BTreeSet<u64>,
    next_entity: &mut u64,
    effects: &mut Vec<PopupEffect>,
    deferred: &mut Vec<PopupRequest>,
    request: PopupRequest,
)
    requires
        event_fits(
            index@,
            parents@,
            PopupRun {
                popups: old(popups)@,
                known: old(known)@,
                next_entity: *old(next_entity),
                effects: old(effects)@,
                deferred: old(deferred)@,
            },
            request,
        ),
        *old(next_entity) < u64::MAX,
    ensures
        ({
            let before = PopupRun {
                popups: old(popups)@,
                known: old(known)@,
                next_entity: *old(next_entity),
                effects: old(effects)@,
                deferred: old(deferred)@,
            };
            let after = popup_step(index@, parents@, before, request);
            &&& final(popups)@ == after.popups
            &&& final(known)@ == after.known
            &&& *final(next_entity) == after.next_entity
            &&& final(effects)@ == after.effects
            &&& final(deferred)@ == after.deferred
        }),
        *final(next_entity) <= *old(next_entity) + 1,
{
    let surface = request.surface_id;
    match request.event {
        PopupEvent::Created { parent_surface_id, placement } => {
            if known.contains(&surface) {
                deferred.push(request);
                return;
            }
            let parent = match popup_parent_entity(parent_surface_id, index, parents) {
                Some(parent) => parent,
                None => {
                    deferred.push(request);
                    return;
                },
            };
            let geometry = match popup_geometry_for(parent, placement, parents) {
                Some(geometry) => geometry,
                None => {
                    deferred.push(request);
                    return;
                },
            };
            effects.push(
                PopupEffect::Spawn(
                    PopupSpawn {
                        entity: *next_entity,
                        surface_id: surface,
                        geometry,
                        surface: PopupSurface {
                            x: placement.x,
                            y: placement.y,
                            width: if placement.width < 1 { 1 } else { placement.width as u32 },
                            height: if placement.height < 1 { 1 } else { placement.height as u32 },
                        },
                        parent,
                    },
                ),
            );
            known.insert(surface);
            *next_entity = *next_entity + 1;
        },
        PopupEvent::Closed => {
            match resolve_popup(index, popups, surface) {
                Some(i) => {
                    let links = current_links(popups, effects);
                    let closed = popup_descendants(&links, popups[i].entity);
                    push_despawns(effects, &closed);
                    known.remove(&surface);
                },
                None => {
                    if known.contains(&surface) {
                        deferred.push(request);
                    }
                },
            }
        },
        _ => {
            let i = match resolve_popup(index, popups, surface) {
                Some(i) => i,
                None => {
                    deferred.push(request);
                    return;
                },
            };
            let mut popup = popups[i];
            match request.event {
                PopupEvent::Repositioned { placement } => {
                    if let Some(geometry) = popup_geometry_for(popup.parent, placement, parents) {
                        popup.geometry = geometry;
                    }
                    popup.surface = PopupSurface {
                        x: placement.x,
                        y: placement.y,
                        width: if placement.width < 1 { 1 } else { placement.width as u32 },
                        height: if placement.height < 1 { 1 } else { placement.height as u32 },
                    };
                },
                PopupEvent::Committed { size, attached } => {
                    if let Some(size) = size {
                        if popup.geometry.width == 0 || popup.geometry.height == 0 {
                            popup.geometry.width = if size.width == 0 { 1 } else { size.width };
                            popup.geometry.height = if size.height == 0 { 1 } else { size.height };
                        }
                    }
                    popup.attached = attached;
                    popup.content_version = if popup.content_version == u64::MAX {
                        0
                    } else {
                        popup.content_version + 1
                    };
                },
                PopupEvent::Grab { seat_id, serial } => {
                    popup.grab = PopupGrab { active: true, seat_id, serial: Some(serial) };
                },
                _ => {},
            }
            popups.set(i, popup);
        },
    }
}

/// Handles the staged popup events followed by the newly received ones; see [`popup_run`]. The
/// parent surfaces are the windows followed by the popups as they were when the step began;
/// spawned popups take entity handles from `first_free_entity` on. Returns the effects and the
/// events that wait for later, in order.
pub fn popup_management_system(
    index: &Vec<IndexedSurface>,
    windows: &Vec<ParentSurface>,
    popups: &mut Vec<PopupRecord>,
    requests: &Vec<PopupRequest>,
    first_free_entity: u64,
) -> (result: (Vec<PopupEffect>, Vec<PopupRequest>))
    requires
        first_free_entity + requests@.len() < u64::MAX,
        events_fit(
            index@,
            parent_surfaces(windows@, old(popups)@),
            PopupRun {
                popups: old(popups)@,
                known: popup_surfaces(old(popups)@),
                next_entity: first_free_entity,
                effects: seq![],
                deferred: seq![],
            },
            requests@,
        ),
    ensures
        ({
            let run = popup_run(
                index@,
                parent_surfaces(windows@, old(popups)@),
                PopupRun {
                    popups: old(popups)@,
                    known: popup_surfaces(old(popups)@),
                    next_entity: first_free_entity,
                    effects: seq![],
                    deferred: seq![],
                },
                requests@,
            );
            &&& final(popups)@ == run.popups
            &&& result.0@ == run.effects
            &&& result.1@ == run.deferred
        }),
{
    let mut parents: Vec<ParentSurface> = Vec::new();
    let mut known: BTreeSet<u64> = BTreeSet::new();
    let mut w: usize = 0;
    while w < windows.len()
        invariant
            w <= windows@.len(),
            parents@ == windows@.take(w as int),
        decreases windows.len() - w,
    {
        parents.push(windows[w]);
        proof {
            assert(windows@.take(w + 1) =~= windows@.take(w as int).push(windows@[w as int]));
        }
        w += 1;
    }
    let ghost start_popups = popups@;
    let mut p: usize = 0;
    while p < popups.len()
        invariant
            p <= popups@.len(),
            popups@ == start_popups,
            windows@.take(windows@.len() as int) == windows@,
            parents@ == parent_surfaces(windows@, popups@.take(p as int)),
            forall|s: u64| known@.contains(s) <==> exists|i: int| 0 <= i < p && popups@[i].surface_id == s,
        decreases popups.len() - p,
    {
        let popup = popups[p];
        parents.push(ParentSurface { entity: popup.entity, surface_id: popup.surface_id, geometry: popup.geometry });
        known.insert(popup.surface_id);
        proof {
            assert(parent_surfaces(windows@, popups@.take(p + 1)) =~= parent_surfaces(
                windows@,
                popups@.take(p as int),
            ).push(ParentSurface { entity: popup.entity, surface_id: popup.surface_id, geometry: popup.geometry }));
            assert forall|s: u64| known@.contains(s) implies exists|i: int| 0 <= i < p + 1 && popups@[i].surface_id == s by {
                if s == popup.surface_id {
                    assert(popups@[p as int].surface_id == s);
                }
            }
        }
        p += 1;
    }
    assert(popups@.take(p as int) =~= popups@);
    assert(known@ =~= popup_surfaces(popups@));
    let ghost parents_view = parents@;
    let ghost start = PopupRun {
        popups: popups@,
        known: known@,
        next_entity: first_free_entity,
        effects: seq![],
        deferred: seq![],
    };
    let mut next_entity = first_free_entity;
    let mut effects: Vec<PopupEffect> = Vec::new();
    let mut deferred: Vec<PopupRequest> = Vec::new();
    let mut i: usize = 0;
    while i < requests.len()
        invariant
            i <= requests@.len(),
            parents@ == parents_view,
            first_free_entity + requests@.len() < u64::MAX,
            next_entity <= first_free_entity + i,
            events_fit(index@, parents_view, start, requests@),
            ({
                let run = popup_run(index@, parents_view, start, requests@.take(i as int));
                &&& popups@ == run.popups
                &&& known@ == run.known
                &&& next_entity == run.next_entity
                &&& effects@ == run.effects
                &&& deferred@ == run.deferred
            }),
        decreases requests.len() - i,
    {
        proof {
            assert(requests@.take(i + 1).drop_last() =~= requests@.take(i as int));
            assert(event_fits(
                index@,
                parents_view,
                popup_run(index@, parents_view, start, requests@.take(i as int)),
                requests@[i as int],
            ));
        }
        apply_popup_event(index, &parents, popups, &mut known, &mut next_entity, &mut effects, &mut deferred, requests[i]);
        i += 1;
    }
    assert(requests@.take(i as int) =~= requests@);
    (effects, deferred)
}

/// Rectangle of a popup placed relative to its parent's rectangle (sides at least one).
pub open spec fn placed_popup(parent: SurfaceGeometry, surface: PopupSurface) -> SurfaceGeometry {
    SurfaceGeometry {
        x: clamp_i32(parent.x + surface.x) as i32,
        y: clamp_i32(parent.y + surface.y) as i32,
        width: if surface.width == 0 { 1 } else { surface.width },
        height: if surface.height == 0 { 1 } else { surface.height },
    }
}

/// Window with a given entity.
pub open spec fn window_entity_is(entity: u64) -> spec_fn(ParentSurface) -> bool {
    |window: ParentSurface| window.entity == entity
}

/// Popup with a given entity.
pub open spec fn popup_entity_is(entity: u64) -> spec_fn(PopupRecord) -> bool {
    |popup: PopupRecord| popup.entity == entity
}

/// Projected rectangle of the surface `entity`: a window keeps its rectangle; a popup is placed
/// relative to its parent's projected rectangle, following at most `fuel` popup parents (a chain
/// that never reaches a window has none). Entities are unique among windows and popups.
pub open spec fn projected_surface(
    windows: Seq<ParentSurface>,
    popups: Seq<PopupRecord>,
    entity: u64,
    fuel: nat,
) -> Option<SurfaceGeometry>
    decreases fuel,
{
    match first_index(windows, window_entity_is(entity)) {
        Some(w) => Some(windows[w].geometry),
        None => match first_index(popups, popup_entity_is(entity)) {
            Some(p) => if fuel == 0 {
                None
            } else {
                match projected_surface(windows, popups, popups[p].parent, (fuel - 1) as nat) {
                    Some(parent) => Some(placed_popup(parent, popups[p].surface)),
                    None => None,
                }
            },
            None => None,
        },
    }
}

/// A popup after projection: placed relative to its parent when the parent chain reaches a
/// window, else unchanged.
pub open spec fn projected_popup(
    windows: Seq<ParentSurface>,
    popups: Seq<PopupRecord>,
    popup: PopupRecord,
) -> PopupRecord {
    match projected_surface(windows, popups, popup.parent, popups.len()) {
        Some(parent) => PopupRecord { geometry: placed_popup(parent, popup.surface), ..popup },
        None => popup,
    }
}

fn place_popup(parent: SurfaceGeometry, surface: PopupSurface) -> (geometry: SurfaceGeometry)
    ensures
        geometry == placed_popup(parent, surface),
{
    SurfaceGeometry {
        x: i32_saturating_add(parent.x, surface.x),
        y: i32_saturating_add(parent.y, surface.y),
        width: if surface.width == 0 { 1 } else { surface.width },
        height: if surface.height == 0 { 1 } else { surface.height },
    }
}

fn find_window_entity(windows: &Vec<ParentSurface>, entity: u64) -> (index: Option<usize>)
    ensures
        match index {
            Some(i) => first_index(windows@, window_entity_is(entity)) == Some(i as int) && i < windows@.len(),
            None => first_index(windows@, window_entity_is(entity)) is None,
        },
{
    proof {
        lemma_first_index_bounds(windows@, window_entity_is(entity), 0);
    }
    let mut i: usize = 0;
    while i < windows.len()
        invariant
            i <= windows@.len(),
            first_index(windows@, window_entity_is(entity)) == first_index_from(windows@, window_entity_is(entity), i as int),
        decreases windows.len() - i,
    {
        if windows[i].entity == entity {
            return Some(i);
        }
        i += 1;
    }
    None
}

fn find_popup_entity(popups: &Vec<PopupRecord>, entity: u64) -> (index: Option<usize>)
    ensures
        match index {
            Some(i) => first_index(popups@, popup_entity_is(entity)) == Some(i as int) && i < popups@.len(),
            None => first_index(popups@, popup_entity_is(entity)) is None,
        },
{
    proof {
        lemma_first_index_bounds(popups@, popup_entity_is(entity), 0);
    }
    let mut i: usize = 0;
    while i < popups.len()
        invariant
            i <= popups@.len(),
            first_index(popups@, popup_entity_is(entity)) == first_index_from(popups@, popup_entity_is(entity), i as int),
        decreases popups.len() - i,
    {
        if popups[i].entity == entity {
            return Some(i);
        }
        i += 1;
    }
    None
}

fn project_surface(windows: &Vec<ParentSurface>, popups: &Vec<PopupRecord>, entity: u64, fuel: usize) -> (geometry:
    Option<SurfaceGeometry>)
    ensures
        geometry == projected_surface(windows@, popups@, entity, fuel as nat),
    decreases fuel,
{
    match find_window_entity(windows, entity) {
        Some(w) => Some(windows[w].geometry),
        None => match find_popup_entity(popups, entity) {
            Some(p) => {
                if fuel == 0 {
                    None
                } else {
                    match project_surface(windows, popups, popups[p].parent, fuel - 1) {
                        Some(parent) => Some(place_popup(parent, popups[p].surface)),
                        None => None,
                    }
                }
            },
            None => None,
        },
    }
}

/// Places every popup relative to its parent's projected rectangle (see [`projected_popup`]),
/// so nested popups follow their parents' moves within one pass.
pub fn popup_projection_system(windows: &Vec<ParentSurface>, popups: &mut Vec<PopupRecord>)
    ensures
        final(popups)@.len() == old(popups)@.len(),
        forall|i: int|
            0 <= i < old(popups)@.len() ==> #[trigger] final(popups)@[i] == projected_popup(
                windows@,
                old(popups)@,
                old(popups)@[i],
            ),
{
    let snapshot: Vec<PopupRecord> = popups.clone();
    let ghost start = popups@;
    assert(snapshot@ == start) by {
        assert(forall|i: int| 0 <= i < popups@.len() ==> vstd::pervasive::cloned(popups@[i], #[trigger] snapshot@[i]));
        assert(snapshot@ =~= start);
    }
    let n = snapshot.len();
    let mut i: usize = 0;
    while i < n
        invariant
            snapshot@ == start,
            n == start.len(),
            popups@.len() == n,
            i <= n,
            forall|j: int| i <= j < n ==> popups@[j] == start[j],
            forall|j: int| 0 <= j < i ==> #[trigger] popups@[j] == projected_popup(windows@, start, start[j]),
        decreases n - i,
    {
        let popup = snapshot[i];
        match project_surface(windows, &snapshot, popup.parent, n) {
            Some(parent) => {
                let placed = PopupRecord { geometry: place_popup(parent, popup.surface), ..popup };
                popups.set(i, placed);
            },
            None => {},
        }
        i += 1;
    }
}

} // verus!

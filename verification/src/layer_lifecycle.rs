//! Layer-shell lifecycle: creation, commits and destruction requests become layer records, and
//! each layer is bound to the output its protocol state names.
//!
//! Requests for a layer that does not exist yet are deferred to the next tick. Layers created
//! during a tick become visible to lookups only on the next tick, and destroyed layers disappear
//! at the end of the tick, as the entity commands of the compositor are applied then.

#[allow(unused_imports)]
use vstd::prelude::*;
use crate::layer::{LayerAnchor, LayerMargins, LayerShellSurface};
use crate::model::SurfaceGeometry;
use crate::search::{first_index, first_index_from, lemma_first_index_bounds};

verus! {

/// Stacking level of a layer surface.
#[derive(Clone, Copy, Debug, PartialEq, Eq, Structural)]
pub enum LayerLevel {
    Background,
    Bottom,
    Top,
    Overlay,
}

/// What a client asked for when it created a layer surface.
#[derive(Clone, Debug, PartialEq, Eq)]
pub struct LayerSurfaceCreateSpec {
    pub namespace: String,
    pub output_name: Option<String>,
    pub layer: LayerLevel,
    pub anchor: LayerAnchor,
    pub desired_width: u32,
    pub desired_height: u32,
    pub exclusive_zone: i32,
    pub margins: LayerMargins,
}

/// Size of a committed buffer.
#[derive(Clone, Copy, Debug, PartialEq, Eq, Structural)]
pub struct LayerSize {
    pub width: u32,
    pub height: u32,
}

/// A lifecycle event of a layer surface.
#[derive(Clone, Debug, PartialEq, Eq)]
pub enum LayerLifecycleAction {
    Created { spec: LayerSurfaceCreateSpec },
    /// A commit; `size` is the buffer size, `None` when no buffer is attached.
    Committed {
        size: Option<LayerSize>,
        anchor: LayerAnchor,
        desired_width: u32,
        desired_height: u32,
        exclusive_zone: i32,
        margins: LayerMargins,
    },
    Destroyed,
}

/// A lifecycle request for one surface.
#[derive(Clone, Debug, PartialEq, Eq)]
pub struct LayerLifecycleRequest {
    pub surface_id: u64,
    pub action: LayerLifecycleAction,
}

/// A layer surface as the shell keeps it.
#[derive(Clone, Debug, PartialEq, Eq)]
pub struct LayerEntity {
    pub surface_id: u64,
    pub namespace: String,
    pub desired_output_name: Option<String>,
    pub level: LayerLevel,
    pub anchor: LayerAnchor,
    pub surface: LayerShellSurface,
    pub geometry: SurfaceGeometry,
    pub buffer_attached: bool,
    pub content_version: u64,
    /// Output entity the layer is bound to.
    pub layer_output: Option<u64>,
}

/// The layer a creation request spawns: no buffer, an empty rectangle, no output binding yet.
pub open spec fn spawned_layer(surface_id: u64, spec: LayerSurfaceCreateSpec) -> LayerEntity {
    LayerEntity {
        surface_id,
        namespace: spec.namespace,
        desired_output_name: spec.output_name,
        level: spec.layer,
        anchor: spec.anchor,
        surface: LayerShellSurface {
            desired_width: spec.desired_width,
            desired_height: spec.desired_height,
            exclusive_zone: spec.exclusive_zone,
            margins: spec.margins,
        },
        geometry: SurfaceGeometry { x: 0, y: 0, width: 0, height: 0 },
        buffer_attached: false,
        content_version: 0,
        layer_output: None,
    }
}

/// A layer after a commit: new anchor and protocol state, the buffer size (each side at least
/// one) when a buffer is attached, and a new content version (wrapping).
pub open spec fn committed_layer(layer: LayerEntity, action: LayerLifecycleAction) -> LayerEntity {
    match action {
        LayerLifecycleAction::Committed {
            size,
            anchor,
            desired_width,
            desired_height,
            exclusive_zone,
            margins,
        } => LayerEntity {
            anchor,
            surface: LayerShellSurface { desired_width, desired_height, exclusive_zone, margins },
            geometry: match size {
                Some(size) => SurfaceGeometry {
                    width: if size.width == 0 { 1 } else { size.width },
                    height: if size.height == 0 { 1 } else { size.height },
                    ..layer.geometry
                },
                None => layer.geometry,
            },
            buffer_attached: size is Some,
            content_version: if layer.content_version == u64::MAX {
                0
            } else {
                (layer.content_version + 1) as u64
            },
            ..layer
        },
        _ => layer,
    }
}

/// Layer with a given surface.
pub open spec fn layer_with(surface_id: u64) -> spec_fn(LayerEntity) -> bool {
    |layer: LayerEntity| layer.surface_id == surface_id
}

/// State of a lifecycle tick: the layers that existed when it began (with their updates and
/// whether they survive it), the spawned layers, the surfaces known to exist, and the deferred
/// requests.
pub struct LayerRun {
    pub existing: Seq<LayerEntity>,
    pub alive: Seq<bool>,
    pub spawned: Seq<LayerEntity>,
    pub known: Set<u64>,
    pub deferred: Seq<LayerLifecycleRequest>,
}

/// One request. A creation spawns a layer for an unknown surface (and is deferred for a known
/// one); a commit updates the first layer of its surface that existed when the tick began; a
/// destruction removes that layer at the end of the tick and forgets the surface. A commit or a
/// destruction with no such layer is deferred.
pub open spec fn layer_step(run: LayerRun, request: LayerLifecycleRequest) -> LayerRun {
    match request.action {
        LayerLifecycleAction::Created { spec } => if !run.known.contains(request.surface_id) {
            LayerRun {
                spawned: run.spawned.push(spawned_layer(request.surface_id, spec)),
                known: run.known.insert(request.surface_id),
                ..run
            }
        } else {
            LayerRun { deferred: run.deferred.push(request), ..run }
        },
        LayerLifecycleAction::Committed { .. } => match first_index(
            run.existing,
            layer_with(request.surface_id),
        ) {
            Some(i) => LayerRun {
                existing: run.existing.update(i, committed_layer(run.existing[i], request.action)),
                ..run
            },
            None => LayerRun { deferred: run.deferred.push(request), ..run },
        },
        LayerLifecycleAction::Destroyed => match first_index(run.existing, layer_with(request.surface_id)) {
            Some(i) => LayerRun {
                alive: run.alive.update(i, false),
                known: run.known.remove(request.surface_id),
                ..run
            },
            None => LayerRun { deferred: run.deferred.push(request), ..run },
        },
    }
}

/// The requests applied in order.
pub open spec fn layer_run(run: LayerRun, requests: Seq<LayerLifecycleRequest>) -> LayerRun
    decreases requests.len(),
{
    if requests.len() == 0 {
        run
    } else {
        layer_step(layer_run(run, requests.drop_last()), requests.last())
    }
}

/// The layers whose flag is set, in order.
pub open spec fn surviving(layers: Seq<LayerEntity>, alive: Seq<bool>) -> Seq<LayerEntity>
    decreases layers.len(),
{
    if layers.len() == 0 || alive.len() == 0 {
        seq![]
    } else {
        (if alive[0] {
            seq![layers[0]]
        } else {
            seq![]
        }) + surviving(layers.drop_first(), alive.drop_first())
    }
}

/// Surfaces of a set of layers.
pub open spec fn layer_surfaces(layers: Seq<LayerEntity>) -> Set<u64> {
    Set::new(|surface: u64| exists|i: int| 0 <= i < layers.len() && layers[i].surface_id == surface)
}

/// The tick's starting state for a set of layers.
pub open spec fn layer_start(layers: Seq<LayerEntity>) -> LayerRun {
    LayerRun {
        existing: layers,
        alive: Seq::new(layers.len(), |i: int| true),
        spawned: seq![],
        known: layer_surfaces(layers),
        deferred: seq![],
    }
}

fn find_layer(layers: &Vec<LayerEntity>, surface_id: u64) -> (index: Option<usize>)
    ensures
        index matches Some(i) ==> i < layers@.len(),
        match index {
            Some(i) => first_index(layers@, layer_with(surface_id)) == Some(i as int),
            None => first_index(layers@, layer_with(surface_id)) is None,
        },
{
    proof {
        lemma_first_index_bounds(layers@, layer_with(surface_id), 0);
    }
    let mut i: usize = 0;
    while i < layers.len()
        invariant
            i <= layers@.len(),
            first_index(layers@, layer_with(surface_id)) == first_index_from(layers@, layer_with(surface_id), i as int),
        decreases layers.len() - i,
    {
        if layers[i].surface_id == surface_id {
            return Some(i);
        }
        i += 1;
    }
    None
}

fn known_contains(known: &Vec<u64>, surface_id: u64) -> (result: Option<usize>)
    ensures
        match result {
            Some(i) => i < known@.len() && known@[i as int] == surface_id,
            None => !known@.contains(surface_id),
        },
{
    let mut i: usize = 0;
    while i < known.len()
        invariant
            i <= known@.len(),
            forall|j: int| 0 <= j < i ==> known@[j] != surface_id,
        decreases known.len() - i,
    {
        if known[i] == surface_id {
            return Some(i);
        }
        i += 1;
    }
    None
}

fn apply_commit(layer: &mut LayerEntity, action: &LayerLifecycleAction)
    ensures
        *final(layer) == committed_layer(*old(layer), *action),
{
    match action {
        LayerLifecycleAction::Committed {
            size,
            anchor,
            desired_width,
            desired_height,
            exclusive_zone,
            margins,
        } => {
            layer.anchor = *anchor;
            layer.surface = LayerShellSurface {
                desired_width: *desired_width,
                desired_height: *desired_height,
                exclusive_zone: *exclusive_zone,
                margins: *margins,
            };
            if let Some(size) = size {
                layer.geometry.width = if size.width == 0 { 1 } else { size.width };
                layer.geometry.height = if size.height == 0 { 1 } else { size.height };
            }
            layer.buffer_attached = size.is_some();
            layer.content_version = layer.content_version.wrapping_add(1);
        },
        _ => {},
    }
}

proof fn lemma_surviving_step(layers: Seq<LayerEntity>, alive: Seq<bool>, j: int)
    requires
        0 <= j < layers.len(),
        layers.len() == alive.len(),
    ensures
        surviving(layers.skip(j), alive.skip(j)) == (if alive[j] {
            seq![layers[j]]
        } else {
            seq![]
        }) + surviving(layers.skip(j + 1), alive.skip(j + 1)),
{
    assert(layers.skip(j).drop_first() =~= layers.skip(j + 1));
    assert(alive.skip(j).drop_first() =~= alive.skip(j + 1));
    assert(layers.skip(j)[0] == layers[j]);
    assert(alive.skip(j)[0] == alive[j]);
}

/// Materialises the pending lifecycle requests into layers (see [`layer_step`]); the requests
/// that could not be handled yet are left pending for the next tick.
pub fn layer_lifecycle_system(layers: &mut Vec<LayerEntity>, pending: &mut Vec<LayerLifecycleRequest>)
    ensures
        ({
            let run = layer_run(layer_start(old(layers)@), old(pending)@);
            &&& final(layers)@ == surviving(run.existing, run.alive) + run.spawned
            &&& final(pending)@ == run.deferred
        }),
{
    let ghost requests = pending@;
    let ghost start = layer_start(layers@);
    let mut known: Vec<u64> = Vec::new();
    let mut k: usize = 0;
    while k < layers.len()
        invariant
            k <= layers@.len(),
            known@ == layers@.take(k as int).map_values(|layer: LayerEntity| layer.surface_id),
        decreases layers.len() - k,
    {
        known.push(layers[k].surface_id);
        k += 1;
        assert(known@ =~= layers@.take(k as int).map_values(|layer: LayerEntity| layer.surface_id));
    }
    assert(layers@.take(k as int) =~= layers@);
    assert forall|s: u64| known@.contains(s) <==> layer_surfaces(layers@).contains(s) by {
        if known@.contains(s) {
            let j = choose|j: int| 0 <= j < known@.len() && known@[j] == s;
            assert(layers@[j].surface_id == s);
        }
        if layer_surfaces(layers@).contains(s) {
            let j = choose|j: int| 0 <= j < layers@.len() && layers@[j].surface_id == s;
            assert(known@[j] == s);
        }
    }
    let mut alive: Vec<bool> = Vec::new();
    let mut a: usize = 0;
    while a < layers.len()
        invariant
            a <= layers@.len(),
            alive@ == Seq::new(a as nat, |i: int| true),
        decreases layers.len() - a,
    {
        alive.push(true);
        a += 1;
        assert(alive@ =~= Seq::new(a as nat, |i: int| true));
    }
    let mut spawned: Vec<LayerEntity> = Vec::new();
    let mut deferred: Vec<LayerLifecycleRequest> = Vec::new();
    let mut processed: usize = 0;
    let total_requests = pending.len();
    assert(requests.len() == total_requests);
    while pending.len() > 0
        invariant
            requests.len() <= usize::MAX,
            processed + pending@.len() == requests.len(),
            pending@ == requests.skip(processed as int),
            alive@.len() == layers@.len(),
            ({
                let run = layer_run(start, requests.take(processed as int));
                &&& run.existing == layers@
                &&& run.alive == alive@
                &&& run.spawned == spawned@
                &&& run.deferred == deferred@
                &&& forall|s: u64| run.known.contains(s) <==> known@.contains(s)
            }),
        decreases pending.len(),
    {
        let request = pending.remove(0);
        let ghost run = layer_run(start, requests.take(processed as int));
        proof {
            assert(requests[processed as int] == request);
            assert(requests.take(processed + 1).drop_last() =~= requests.take(processed as int));
            assert(requests.skip(processed + 1) =~= requests.skip(processed as int).drop_first());
            assert(layer_run(start, requests.take(processed + 1)) == layer_step(run, request));
        }
        let surface_id = request.surface_id;
        match request.action {
            LayerLifecycleAction::Created { spec } => {
                if known_contains(&known, surface_id).is_none() {
                    let ghost prior_known = known@;
                    known.push(surface_id);
                    assert forall|t: u64| run.known.insert(surface_id).contains(t) <==> known@.contains(t) by {
                        if t == surface_id {
                            assert(known@[known@.len() - 1] == t);
                        } else if prior_known.contains(t) {
                            let m = choose|m: int| 0 <= m < prior_known.len() && prior_known[m] == t;
                            assert(known@[m] == t);
                        } else if known@.contains(t) {
                            let m = choose|m: int| 0 <= m < known@.len() && known@[m] == t;
                            assert(prior_known[m] == t);
                        }
                    }
                    spawned.push(
                        LayerEntity {
                            surface_id,
                            namespace: spec.namespace,
                            desired_output_name: spec.output_name,
                            level: spec.layer,
                            anchor: spec.anchor,
                            surface: LayerShellSurface {
                                desired_width: spec.desired_width,
                                desired_height: spec.desired_height,
                                exclusive_zone: spec.exclusive_zone,
                                margins: spec.margins,
                            },
                            geometry: SurfaceGeometry { x: 0, y: 0, width: 0, height: 0 },
                            buffer_attached: false,
                            content_version: 0,
                            layer_output: None,
                        },
                    );
                } else {
                    deferred.push(LayerLifecycleRequest { surface_id, action: LayerLifecycleAction::Created { spec } });
                }
            },
            LayerLifecycleAction::Committed { .. } => {
                match find_layer(layers, surface_id) {
                    Some(i) => {
                        let ghost prior = layers@;
                        let mut layer = layers.remove(i);
                        apply_commit(&mut layer, &request.action);
                        layers.insert(i, layer);
                        assert(layers@ =~= prior.update(i as int, committed_layer(prior[i as int], request.action)));
                    },
                    None => {
                        deferred.push(request);
                    },
                }
            },
            LayerLifecycleAction::Destroyed => {
                match find_layer(layers, surface_id) {
                    Some(i) => {
                        alive.set(i, false);
                        let ghost before = known@;
                        let mut j: usize = 0;
                        while j < known.len()
                            invariant
                                j <= known@.len(),
                                forall|s: u64| s != surface_id ==> (known@.contains(s) <==> before.contains(s)),
                                forall|m: int| 0 <= m < j ==> known@[m] != surface_id,
                            decreases known.len() - j,
                        {
                            if known[j] == surface_id {
                                let ghost prior = known@;
                                known.remove(j);
                                proof {
                                    assert forall|s: u64| s != surface_id implies (known@.contains(s) <==> prior.contains(s)) by {
                                        if prior.contains(s) {
                                            let m = choose|m: int| 0 <= m < prior.len() && prior[m] == s;
                                            if m < j {
                                                assert(known@[m] == s);
                                            } else {
                                                assert(known@[m - 1] == s);
                                            }
                                        }
                                        if known@.contains(s) {
                                            let m = choose|m: int| 0 <= m < known@.len() && known@[m] == s;
                                            if m < j {
                                                assert(prior[m] == s);
                                            } else {
                                                assert(prior[m + 1] == s);
                                            }
                                        }
                                    }
                                }
                            } else {
                                j += 1;
                            }
                        }
                    },
                    None => {
                        deferred.push(request);
                    },
                }
            },
        }
        processed += 1;
    }
    assert(requests.take(processed as int) =~= requests);
    let ghost run = layer_run(start, requests);
    assert(run.spawned == spawned@);
    assert(run.existing == layers@);
    assert(run.alive == alive@);
    assert(run.deferred == deferred@);
    let ghost updated = layers@;
    let ghost flags = alive@;
    let mut j: usize = layers.len();
    assert(updated.skip(j as int) =~= Seq::<LayerEntity>::empty());
    while j > 0
        invariant
            j <= updated.len(),
            updated.len() == flags.len(),
            alive@ == flags,
            layers@ == updated.take(j as int) + surviving(updated.skip(j as int), flags.skip(j as int)),
        decreases j,
    {
        proof {
            lemma_surviving_step(updated, flags, j - 1);
        }
        if !alive[j - 1] {
            layers.remove(j - 1);
        }
        j -= 1;
        assert(layers@ =~= updated.take(j as int) + surviving(updated.skip(j as int), flags.skip(j as int)));
    }
    assert(updated.skip(0) =~= updated);
    assert(flags.skip(0) =~= flags);
    let mut s: usize = 0;
    let ghost kept = layers@;
    let total_spawned = spawned.len();
    assert(run.spawned.len() == total_spawned);
    while spawned.len() > 0
        invariant
            run.spawned.len() <= usize::MAX,
            s + spawned@.len() == run.spawned.len(),
            spawned@ == run.spawned.skip(s as int),
            layers@ == kept + run.spawned.take(s as int),
        decreases spawned.len(),
    {
        let layer = spawned.remove(0);
        proof {
            assert(run.spawned[s as int] == layer);
            assert(run.spawned.skip(s + 1) =~= run.spawned.skip(s as int).drop_first());
        }
        layers.push(layer);
        s += 1;
        assert(layers@ =~= kept + run.spawned.take(s as int));
    }
    assert(run.spawned.take(s as int) =~= run.spawned);
    *pending = deferred;
}

/// An output as layer binding sees it.
#[derive(Clone, Debug, PartialEq, Eq)]
pub struct NamedOutput {
    pub entity: u64,
    pub name: String,
}

/// Output named by its name.
pub open spec fn output_named(name: Seq<char>) -> spec_fn(NamedOutput) -> bool {
    |output: NamedOutput| output.name@ == name
}

/// The output entity a layer binds to: the first output with the name its protocol state gives;
/// none without a name or without such an output.
pub open spec fn bound_output(outputs: Seq<NamedOutput>, desired_output_name: Option<String>) -> Option<u64> {
    match desired_output_name {
        Some(name) => match first_index(outputs, output_named(name@)) {
            Some(i) => Some(outputs[i].entity),
            None => None,
        },
        None => None,
    }
}

fn resolve_output_entity(outputs: &Vec<NamedOutput>, desired_output_name: &Option<String>) -> (entity: Option<u64>)
    ensures
        entity == bound_output(outputs@, *desired_output_name),
{
    match desired_output_name {
        Some(name) => {
            proof {
                lemma_first_index_bounds(outputs@, output_named(name@), 0);
            }
            let mut i: usize = 0;
            while i < outputs.len()
                invariant
                    i <= outputs@.len(),
                    *desired_output_name == Some(*name),
                    first_index(outputs@, output_named(name@)) == first_index_from(outputs@, output_named(name@), i as int),
                decreases outputs.len() - i,
            {
                if outputs[i].name == *name {
                    assert(first_index(outputs@, output_named(name@)) == Some(i as int));
                    return Some(outputs[i].entity);
                }
                i += 1;
            }
            None
        },
        None => None,
    }
}

/// A layer bound to the output its protocol state names.
pub open spec fn rebound(outputs: Seq<NamedOutput>, layer: LayerEntity) -> LayerEntity {
    LayerEntity { layer_output: bound_output(outputs, layer.desired_output_name), ..layer }
}

/// Keeps every layer bound to the output its protocol state names (see [`bound_output`]);
/// nothing else changes.
pub fn sync_layer_output_relationships_system(outputs: &Vec<NamedOutput>, layers: &mut Vec<LayerEntity>)
    ensures
        final(layers)@.len() == old(layers)@.len(),
        forall|i: int|
            0 <= i < old(layers)@.len() ==> #[trigger] final(layers)@[i] == rebound(outputs@, old(layers)@[i]),
{
    let ghost before = layers@;
    let mut i: usize = 0;
    while i < layers.len()
        invariant
            i <= layers@.len(),
            layers@.len() == before.len(),
            forall|j: int| i <= j < before.len() ==> layers@[j] == before[j],
            forall|j: int|
                0 <= j < i ==> #[trigger] layers@[j] == rebound(outputs@, before[j]),
        decreases layers.len() - i,
    {
        let bound = resolve_output_entity(outputs, &layers[i].desired_output_name);
        if bound != layers[i].layer_output {
            let mut layer = layers.remove(i);
            layer.layer_output = bound;
            layers.insert(i, layer);
        }
        i += 1;
    }
}

} // verus!

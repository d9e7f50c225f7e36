//! Workspaces: the remembered output routes, workspace lookups, and the staged create / switch /
//! destroy controls together with the output routing that follows from them.

#[allow(unused_imports)]
use vstd::prelude::*;
use std::collections::{BTreeMap, BTreeSet};
use crate::search::{
    first_index, first_index_from, lemma_first_index_bounds, lemma_first_index_push,
    lemma_first_index_same,
};
use crate::text::{decimal, u32_to_string};

verus! {

/// Marker type documenting the shell workspace subsystem.
#[derive(Clone, Copy, Debug, PartialEq, Eq, Structural)]
pub struct WorkspaceManager;

/// One remembered `output name -> output id` route.
#[derive(Clone, Debug)]
pub struct OutputNameRoute {
    pub name: String,
    pub output_id: u64,
}

/// Remembers which workspace last belonged to each output across output lifecycle changes.
pub struct RememberedOutputWorkspaceState {
    /// Mapping from runtime output id to its last assigned workspace id.
    pub by_id: BTreeMap<u64, u32>,
    /// Output name to runtime output id routes; the first route with a name is the one in force.
    pub ids_by_name: Vec<OutputNameRoute>,
}

impl Default for RememberedOutputWorkspaceState {
    fn default() -> (state: Self)
        ensures
            state.by_id@ == Map::<u64, u32>::empty(),
            state.ids_by_name@.len() == 0,
    {
        RememberedOutputWorkspaceState { by_id: BTreeMap::new(), ids_by_name: Vec::new() }
    }
}

/// Route carrying the given output name.
pub open spec fn names_output(name: Seq<char>) -> spec_fn(OutputNameRoute) -> bool {
    |route: OutputNameRoute| route.name@ == name
}

/// Output id remembered for an output name.
pub open spec fn remembered_output(routes: Seq<OutputNameRoute>, name: Seq<char>) -> Option<u64> {
    match first_index(routes, names_output(name)) {
        Some(i) => Some(routes[i].output_id),
        None => None,
    }
}

/// Value of the remembered routes: workspace by output id, and output id by output name.
pub struct RememberedView {
    pub by_id: Map<u64, u32>,
    pub names: Map<Seq<char>, u64>,
}

/// Output name to output id map that the routes describe.
pub open spec fn remembered_names(routes: Seq<OutputNameRoute>) -> Map<Seq<char>, u64> {
    Map::new(
        |name: Seq<char>| remembered_output(routes, name) is Some,
        |name: Seq<char>| remembered_output(routes, name)->0,
    )
}

impl View for RememberedOutputWorkspaceState {
    type V = RememberedView;

    open spec fn view(&self) -> RememberedView {
        RememberedView { by_id: self.by_id@, names: remembered_names(self.ids_by_name@) }
    }
}

/// Workspace remembered for an output name in a remembered value.
pub open spec fn remembered_lookup(remembered: RememberedView, name: Seq<char>) -> Option<u32> {
    if remembered.names.contains_key(name) && remembered.by_id.contains_key(
        remembered.names[name],
    ) {
        Some(remembered.by_id[remembered.names[name]])
    } else {
        None
    }
}

impl RememberedOutputWorkspaceState {
    /// Workspace remembered for an output name: the workspace of the output id routed from it.
    pub open spec fn remembered_workspace(&self, name: Seq<char>) -> Option<u32> {
        match remembered_output(self.ids_by_name@, name) {
            Some(output_id) => if self.by_id@.contains_key(output_id) {
                Some(self.by_id@[output_id])
            } else {
                None
            },
            None => None,
        }
    }

    fn route_index(&self, output_name: &String) -> (index: Option<usize>)
        ensures
            match index {
                Some(i) => first_index(self.ids_by_name@, names_output(output_name@)) == Some(
                    i as int,
                ),
                None => first_index(self.ids_by_name@, names_output(output_name@)) is None,
            },
    {
        let mut i: usize = 0;
        while i < self.ids_by_name.len()
            invariant
                i <= self.ids_by_name@.len(),
                first_index(self.ids_by_name@, names_output(output_name@)) == first_index_from(
                    self.ids_by_name@,
                    names_output(output_name@),
                    i as int,
                ),
            decreases self.ids_by_name.len() - i,
        {
            if self.ids_by_name[i].name == *output_name {
                return Some(i);
            }
            i += 1;
        }
        None
    }

    /// Returns the remembered workspace for the provided output name, when one exists.
    pub fn workspace_for_output_name(&self, output_name: &str) -> (workspace: Option<u32>)
        ensures
            workspace == self.remembered_workspace(output_name@),
            workspace == remembered_lookup(self@, output_name@),
    {
        let name = output_name.to_owned();
        proof {
            lemma_first_index_bounds(self.ids_by_name@, names_output(name@), 0);
        }
        match self.route_index(&name) {
            Some(i) => {
                let output_id = self.ids_by_name[i].output_id;
                match self.by_id.get(&output_id) {
                    Some(workspace) => Some(*workspace),
                    None => None,
                }
            },
            None => None,
        }
    }

    /// Records the most recent workspace assignment for one output.
    pub fn remember(&mut self, output_id: u64, output_name: String, workspace_id: u32)
        ensures
            final(self).by_id@ == old(self).by_id@.insert(output_id, workspace_id),
            remembered_output(final(self).ids_by_name@, output_name@) == Some(output_id),
            forall|name: Seq<char>|
                name != output_name@ ==> remembered_output(final(self).ids_by_name@, name)
                    == remembered_output(old(self).ids_by_name@, name),
            final(self)@ == (RememberedView {
                by_id: old(self)@.by_id.insert(output_id, workspace_id),
                names: old(self)@.names.insert(output_name@, output_id),
            }),
    {
        proof {
            lemma_first_index_bounds(self.ids_by_name@, names_output(output_name@), 0);
        }
        let ghost before = self.ids_by_name@;
        match self.route_index(&output_name) {
            Some(i) => {
                let route = OutputNameRoute { name: output_name, output_id };
                self.ids_by_name.set(i, route);
                proof {
                    assert forall|name: Seq<char>| true implies first_index(
                        self.ids_by_name@,
                        names_output(name),
                    ) == first_index(before, names_output(name)) by {
                        assert forall|j: int| 0 <= j < before.len() implies names_output(name)(
                            #[trigger] self.ids_by_name@[j],
                        ) == names_output(name)(before[j]) by {
                            if j == i as int {
                                assert(before[j].name@ == self.ids_by_name@[j].name@);
                            }
                        }
                        lemma_first_index_same(self.ids_by_name@, before, names_output(name), 0);
                    }
                    assert(first_index(self.ids_by_name@, names_output(output_name@)) == Some(
                        i as int,
                    ));
                    assert forall|name: Seq<char>|
                        name != output_name@ implies remembered_output(self.ids_by_name@, name)
                        == remembered_output(before, name) by {
                        lemma_first_index_bounds(before, names_output(name), 0);
                        assert(first_index(self.ids_by_name@, names_output(name)) == first_index(
                            before,
                            names_output(name),
                        ));
                    }
                }
            },
            None => {
                let route = OutputNameRoute { name: output_name, output_id };
                self.ids_by_name.push(route);
                proof {
                    assert(self.ids_by_name@ == before.push(route));
                    assert forall|name: Seq<char>| true implies #[trigger] first_index(
                        self.ids_by_name@,
                        names_output(name),
                    ) == (if first_index(before, names_output(name)) is Some {
                        first_index(before, names_output(name))
                    } else if names_output(name)(route) {
                        Some(before.len() as int)
                    } else {
                        None::<int>
                    }) by {
                        lemma_first_index_push(before, route, names_output(name), 0);
                    }
                    assert(first_index(self.ids_by_name@, names_output(output_name@)) == Some(
                        before.len() as int,
                    ));
                    assert forall|name: Seq<char>|
                        name != output_name@ implies remembered_output(self.ids_by_name@, name)
                        == remembered_output(before, name) by {
                        lemma_first_index_bounds(before, names_output(name), 0);
                        assert(first_index(self.ids_by_name@, names_output(name)) == first_index(
                            before,
                            names_output(name),
                        ));
                        if let Some(k) = first_index(before, names_output(name)) {
                            assert(self.ids_by_name@[k] == before[k]);
                        }
                    }
                }
            },
        }
        self.by_id.insert(output_id, workspace_id);
        assert(remembered_names(self.ids_by_name@) =~= remembered_names(before).insert(
            output_name@,
            output_id,
        ));
    }
}

/// What was written is what is read back: after remembering `workspace_id` for an output, its
/// name resolves to that workspace.
pub proof fn law_remember_then_lookup(
    before: RememberedView,
    output_id: u64,
    output_name: Seq<char>,
    workspace_id: u32,
)
    ensures
        remembered_lookup(
            RememberedView {
                by_id: before.by_id.insert(output_id, workspace_id),
                names: before.names.insert(output_name, output_id),
            },
            output_name,
        ) == Some(workspace_id),
{
}

/// The remembered routes after a sequence of `remember` calls, each an output id, an output name
/// and a workspace id, in order.
pub open spec fn remembered_after(start: RememberedView, writes: Seq<(u64, Seq<char>, u32)>) -> RememberedView
    decreases writes.len(),
{
    if writes.len() == 0 {
        start
    } else {
        let (output_id, output_name, workspace_id) = writes.last();
        let before = remembered_after(start, writes.drop_last());
        RememberedView {
            by_id: before.by_id.insert(output_id, workspace_id),
            names: before.names.insert(output_name, output_id),
        }
    }
}

/// A remembered workspace is read back after any later `remember` calls that name neither the
/// same output id nor the same output name.
pub proof fn law_remembered_route_survives_other_writes(
    before: RememberedView,
    output_id: u64,
    output_name: Seq<char>,
    workspace_id: u32,
    later: Seq<(u64, Seq<char>, u32)>,
)
    requires
        forall|k: int| 0 <= k < later.len() ==> (#[trigger] later[k]).0 != output_id && later[k].1 != output_name,
    ensures
        remembered_lookup(
            remembered_after(before, seq![(output_id, output_name, workspace_id)] + later),
            output_name,
        ) == Some(workspace_id),
        ({
            let after = remembered_after(before, seq![(output_id, output_name, workspace_id)] + later);
            &&& after.names.contains_key(output_name) && after.names[output_name] == output_id
            &&& after.by_id.contains_key(output_id) && after.by_id[output_id] == workspace_id
        }),
    decreases later.len(),
{
    let writes = seq![(output_id, output_name, workspace_id)] + later;
    if later.len() == 0 {
        assert(writes.drop_last() =~= Seq::<(u64, Seq<char>, u32)>::empty());
        assert(writes.last() == (output_id, output_name, workspace_id));
    } else {
        assert(writes.drop_last() =~= seq![(output_id, output_name, workspace_id)] + later.drop_last());
        law_remembered_route_survives_other_writes(before, output_id, output_name, workspace_id, later.drop_last());
        assert(writes.last() == later[later.len() - 1]);
        let prev = remembered_after(before, writes.drop_last());
        let (id2, name2, ws2) = later[later.len() - 1];
        assert(id2 != output_id && name2 != output_name);
        let after = remembered_after(before, writes);
        assert(after == RememberedView {
            by_id: prev.by_id.insert(id2, ws2),
            names: prev.names.insert(name2, id2),
        });
        assert(prev.names.contains_key(output_name) && prev.names[output_name] == output_id);
        assert(after.names[output_name] == output_id);
        assert(after.by_id[output_id] == workspace_id);
    }
}

/// A workspace as the command step sees it: its entity handle, numeric id, name and whether it
/// is the active one.
#[derive(Clone, Debug)]
pub struct WorkspaceEntry {
    pub entity: u64,
    pub id: u32,
    pub name: String,
    pub active: bool,
}

/// Mathematical value of a [`WorkspaceEntry`].
pub struct WorkspaceEntryView {
    pub entity: u64,
    pub id: u32,
    pub name: Seq<char>,
    pub active: bool,
}

impl View for WorkspaceEntry {
    type V = WorkspaceEntryView;

    open spec fn view(&self) -> WorkspaceEntryView {
        WorkspaceEntryView { entity: self.entity, id: self.id, name: self.name@, active: self.active }
    }
}

/// Values of a sequence of entries.
pub open spec fn entries_view(entries: Seq<WorkspaceEntry>) -> Seq<WorkspaceEntryView> {
    entries.map_values(|entry: WorkspaceEntry| entry@)
}

/// A workspace addressed by numeric id or by name.
#[derive(Clone, Debug, PartialEq, Eq)]
pub enum WorkspaceLookup {
    Id(u32),
    Name(String),
}

/// A workspace addressed as the active one, by numeric id, or by name.
#[derive(Clone, Debug, PartialEq, Eq)]
pub enum WorkspaceSelector {
    Active,
    Id(u32),
    Name(String),
}

/// A staged workspace control.
#[derive(Clone, Debug, PartialEq, Eq)]
pub enum WorkspaceControl {
    Create { target: WorkspaceLookup },
    SwitchOrCreate { target: WorkspaceLookup },
    Destroy { target: WorkspaceSelector },
}

/// Entry addressed by a lookup.
pub open spec fn matches_lookup(lookup: WorkspaceLookup) -> spec_fn(WorkspaceEntryView) -> bool {
    |entry: WorkspaceEntryView|
        match lookup {
            WorkspaceLookup::Id(id) => entry.id == id,
            WorkspaceLookup::Name(name) => entry.name == name@,
        }
}

/// Active entry.
pub open spec fn is_active_entry() -> spec_fn(WorkspaceEntryView) -> bool {
    |entry: WorkspaceEntryView| entry.active
}

/// Largest workspace id, or 0 when there is none.
pub open spec fn max_workspace_id(entries: Seq<WorkspaceEntryView>) -> int
    decreases entries.len(),
{
    if entries.len() == 0 {
        0
    } else {
        let rest = max_workspace_id(entries.drop_last());
        if entries.last().id > rest {
            entries.last().id as int
        } else {
            rest
        }
    }
}

/// Fresh numeric id: one past the largest id, saturating at `u32::MAX`.
pub open spec fn next_id_after(entries: Seq<WorkspaceEntryView>) -> u32 {
    let next = max_workspace_id(entries) + 1;
    if next > u32::MAX {
        u32::MAX
    } else {
        next as u32
    }
}

/// Index of the first entry with the smallest id.
pub open spec fn min_id_index(entries: Seq<WorkspaceEntryView>) -> Option<int>
    decreases entries.len(),
{
    if entries.len() == 0 {
        None
    } else {
        match min_id_index(entries.drop_last()) {
            Some(k) => if entries[k].id <= entries.last().id {
                Some(k)
            } else {
                Some(entries.len() - 1)
            },
            None => Some(entries.len() - 1),
        }
    }
}

/// Entry addressed by a selector: the first active entry (else the first with the smallest id),
/// or the first entry with the given id or name.
pub open spec fn selector_index(entries: Seq<WorkspaceEntryView>, selector: WorkspaceSelector) -> Option<
    int,
> {
    match selector {
        WorkspaceSelector::Active => match first_index(entries, is_active_entry()) {
            Some(i) => Some(i),
            None => min_id_index(entries),
        },
        WorkspaceSelector::Id(id) => first_index(entries, matches_lookup(WorkspaceLookup::Id(id))),
        WorkspaceSelector::Name(name) => first_index(
            entries,
            matches_lookup(WorkspaceLookup::Name(name)),
        ),
    }
}

/// Id and name of a workspace created for a lookup: the requested id with its decimal name, or
/// a fresh id with the requested name.
pub open spec fn new_identity(entries: Seq<WorkspaceEntryView>, lookup: WorkspaceLookup) -> (
    u32,
    Seq<char>,
) {
    match lookup {
        WorkspaceLookup::Id(id) => (id, decimal(id as nat)),
        WorkspaceLookup::Name(name) => (next_id_after(entries), name@),
    }
}

proof fn lemma_max_workspace_id_bounds(entries: Seq<WorkspaceEntryView>)
    ensures
        0 <= max_workspace_id(entries) <= u32::MAX,
    decreases entries.len(),
{
    if entries.len() > 0 {
        lemma_max_workspace_id_bounds(entries.drop_last());
    }
}

proof fn lemma_min_id_index_bounds(entries: Seq<WorkspaceEntryView>)
    ensures
        entries.len() == 0 <==> min_id_index(entries) is None,
        min_id_index(entries) matches Some(k) ==> 0 <= k < entries.len(),
    decreases entries.len(),
{
    if entries.len() > 0 {
        lemma_min_id_index_bounds(entries.drop_last());
    }
}

proof fn lemma_entries_view_take(entries: Seq<WorkspaceEntry>, i: int)
    requires
        0 <= i < entries.len(),
    ensures
        entries_view(entries.take(i + 1)).drop_last() == entries_view(entries.take(i)),
        entries_view(entries.take(i + 1)).last() == entries[i]@,
        entries_view(entries.take(i + 1)).len() == i + 1,
{
    assert(entries_view(entries.take(i + 1)).drop_last() =~= entries_view(entries.take(i)));
}

fn max_workspace_id_of(entries: &Vec<WorkspaceEntry>) -> (max: u32)
    ensures
        max == max_workspace_id(entries_view(entries@)),
{
    let mut max: u32 = 0;
    let mut i: usize = 0;
    while i < entries.len()
        invariant
            i <= entries@.len(),
            max == max_workspace_id(entries_view(entries@.take(i as int))),
        decreases entries.len() - i,
    {
        proof {
            lemma_entries_view_take(entries@, i as int);
        }
        if entries[i].id > max {
            max = entries[i].id;
        }
        i += 1;
    }
    assert(entries@.take(i as int) =~= entries@);
    max
}

/// Generates a fresh numeric workspace id when the user addressed a workspace by a non-numeric
/// name or when the requested numeric id is already taken.
pub fn next_workspace_id(snapshot: &Vec<WorkspaceEntry>) -> (id: u32)
    ensures
        id == next_id_after(entries_view(snapshot@)),
{
    let max = max_workspace_id_of(snapshot);
    if max == u32::MAX {
        max
    } else {
        max + 1
    }
}

fn min_id_index_of(entries: &Vec<WorkspaceEntry>) -> (index: Option<usize>)
    ensures
        match index {
            Some(k) => min_id_index(entries_view(entries@)) == Some(k as int),
            None => min_id_index(entries_view(entries@)) is None,
        },
{
    let mut best: Option<usize> = None;
    let mut i: usize = 0;
    while i < entries.len()
        invariant
            i <= entries@.len(),
            match best {
                Some(k) => min_id_index(entries_view(entries@.take(i as int))) == Some(k as int),
                None => min_id_index(entries_view(entries@.take(i as int))) is None,
            },
        decreases entries.len() - i,
    {
        proof {
            lemma_entries_view_take(entries@, i as int);
            lemma_min_id_index_bounds(entries_view(entries@.take(i as int)));
        }
        match best {
            Some(k) => {
                assert(entries_view(entries@.take(i + 1))[k as int] == entries@[k as int]@);
                if entries[i].id < entries[k].id {
                    best = Some(i);
                }
            },
            None => {
                best = Some(i);
            },
        }
        i += 1;
    }
    assert(entries@.take(i as int) =~= entries@);
    best
}

fn entry_matches_lookup(entry: &WorkspaceEntry, lookup: &WorkspaceLookup) -> (result: bool)
    ensures
        result == matches_lookup(*lookup)(entry@),
{
    match lookup {
        WorkspaceLookup::Id(id) => entry.id == *id,
        WorkspaceLookup::Name(name) => entry.name == *name,
    }
}

/// Index of the first workspace addressed by `lookup`.
pub fn resolve_workspace_lookup(snapshot: &Vec<WorkspaceEntry>, lookup: &WorkspaceLookup) -> (index:
    Option<usize>)
    ensures
        match index {
            Some(i) => first_index(entries_view(snapshot@), matches_lookup(*lookup)) == Some(
                i as int,
            ),
            None => first_index(entries_view(snapshot@), matches_lookup(*lookup)) is None,
        },
{
    let ghost view = entries_view(snapshot@);
    let mut i: usize = 0;
    while i < snapshot.len()
        invariant
            i <= snapshot@.len(),
            view == entries_view(snapshot@),
            first_index(view, matches_lookup(*lookup)) == first_index_from(
                view,
                matches_lookup(*lookup),
                i as int,
            ),
        decreases snapshot.len() - i,
    {
        if entry_matches_lookup(&snapshot[i], lookup) {
            return Some(i);
        }
        i += 1;
    }
    None
}

fn first_active_index(snapshot: &Vec<WorkspaceEntry>) -> (index: Option<usize>)
    ensures
        match index {
            Some(i) => first_index(entries_view(snapshot@), is_active_entry()) == Some(i as int),
            None => first_index(entries_view(snapshot@), is_active_entry()) is None,
        },
{
    let ghost view = entries_view(snapshot@);
    let mut i: usize = 0;
    while i < snapshot.len()
        invariant
            i <= snapshot@.len(),
            view == entries_view(snapshot@),
            first_index(view, is_active_entry()) == first_index_from(
                view,
                is_active_entry(),
                i as int,
            ),
        decreases snapshot.len() - i,
    {
        if snapshot[i].active {
            return Some(i);
        }
        i += 1;
    }
    None
}

/// Index of the workspace addressed by `selector`: the first active workspace (else the first
/// with the smallest id), or the first with the given id or name.
pub fn resolve_workspace_selector(snapshot: &Vec<WorkspaceEntry>, selector: &WorkspaceSelector) -> (index:
    Option<usize>)
    ensures
        match index {
            Some(i) => selector_index(entries_view(snapshot@), *selector) == Some(i as int),
            None => selector_index(entries_view(snapshot@), *selector) is None,
        },
{
    match selector {
        WorkspaceSelector::Active => match first_active_index(snapshot) {
            Some(i) => Some(i),
            None => min_id_index_of(snapshot),
        },
        WorkspaceSelector::Id(id) => resolve_workspace_lookup(snapshot, &WorkspaceLookup::Id(*id)),
        WorkspaceSelector::Name(name) => {
            let lookup = WorkspaceLookup::Name(name.clone());
            resolve_workspace_lookup(snapshot, &lookup)
        },
    }
}

/// Id and name for a workspace created from `lookup`: the requested id named by its decimal
/// digits, or a fresh id carrying the requested name.
pub fn create_workspace_identity(snapshot: &Vec<WorkspaceEntry>, lookup: &WorkspaceLookup) -> (identity: (
    u32,
    String,
))
    ensures
        identity.0 == new_identity(entries_view(snapshot@), *lookup).0,
        identity.1@ == new_identity(entries_view(snapshot@), *lookup).1,
{
    match lookup {
        WorkspaceLookup::Id(id) => (*id, u32_to_string(*id)),
        WorkspaceLookup::Name(name) => (next_workspace_id(snapshot), name.clone()),
    }
}

/// An output as workspace routing sees it: its entity handle, runtime id, name and the
/// workspace it currently shows.
#[derive(Clone, Debug)]
pub struct WorkspaceOutput {
    pub entity: u64,
    pub output_id: u64,
    pub name: String,
    pub current_workspace: Option<u32>,
}

/// Output with the given runtime id.
pub open spec fn is_output(output_id: u64) -> spec_fn(WorkspaceOutput) -> bool {
    |output: WorkspaceOutput| output.output_id == output_id
}

/// Output showing some workspace.
pub open spec fn shows_a_workspace() -> spec_fn(WorkspaceOutput) -> bool {
    |output: WorkspaceOutput| output.current_workspace is Some
}

/// Output a workspace switch applies to: the focused output, else the primary output, else the
/// first output.
pub open spec fn control_output_index(
    outputs: Seq<WorkspaceOutput>,
    focused_output: Option<u64>,
    primary_output: Option<u64>,
) -> Option<int> {
    let by_focus = match focused_output {
        Some(id) => first_index(outputs, is_output(id)),
        None => None,
    };
    let by_primary = match primary_output {
        Some(id) => first_index(outputs, is_output(id)),
        None => None,
    };
    if by_focus is Some {
        by_focus
    } else if by_primary is Some {
        by_primary
    } else if outputs.len() > 0 {
        Some(0)
    } else {
        None
    }
}

/// Workspace shown on the first output with the given id.
pub open spec fn workspace_on_output(outputs: Seq<WorkspaceOutput>, output_id: Option<u64>) -> Option<
    u32,
> {
    match output_id {
        Some(id) => match first_index(outputs, is_output(id)) {
            Some(i) => outputs[i].current_workspace,
            None => None,
        },
        None => None,
    }
}

/// Workspace preferred as the active one: the one on the focused output, else the one on the
/// primary output, else the one on the first output that shows any.
pub open spec fn preferred_workspace(
    outputs: Seq<WorkspaceOutput>,
    focused_output: Option<u64>,
    primary_output: Option<u64>,
) -> Option<u32> {
    let from_focus = workspace_on_output(outputs, focused_output);
    let from_primary = workspace_on_output(outputs, primary_output);
    if from_focus is Some {
        from_focus
    } else if from_primary is Some {
        from_primary
    } else {
        match first_index(outputs, shows_a_workspace()) {
            Some(i) => outputs[i].current_workspace,
            None => None,
        }
    }
}

fn find_output(outputs: &Vec<WorkspaceOutput>, output_id: u64) -> (index: Option<usize>)
    ensures
        match index {
            Some(i) => first_index(outputs@, is_output(output_id)) == Some(i as int),
            None => first_index(outputs@, is_output(output_id)) is None,
        },
{
    let mut i: usize = 0;
    while i < outputs.len()
        invariant
            i <= outputs@.len(),
            first_index(outputs@, is_output(output_id)) == first_index_from(
                outputs@,
                is_output(output_id),
                i as int,
            ),
        decreases outputs.len() - i,
    {
        if outputs[i].output_id == output_id {
            return Some(i);
        }
        i += 1;
    }
    None
}

/// Index of the output that a workspace switch applies to: the focused output, else the
/// primary output, else the first output.
pub fn resolve_workspace_control_output(
    outputs: &Vec<WorkspaceOutput>,
    focused_output: Option<u64>,
    primary_output: Option<u64>,
) -> (index: Option<usize>)
    ensures
        match index {
            Some(i) => control_output_index(outputs@, focused_output, primary_output) == Some(
                i as int,
            ),
            None => control_output_index(outputs@, focused_output, primary_output) is None,
        },
        index matches Some(i) ==> i < outputs@.len(),
{
    proof {
        if let Some(id) = focused_output {
            lemma_first_index_bounds(outputs@, is_output(id), 0);
        }
        if let Some(id) = primary_output {
            lemma_first_index_bounds(outputs@, is_output(id), 0);
        }
    }
    if let Some(id) = focused_output {
        if let Some(i) = find_output(outputs, id) {
            return Some(i);
        }
    }
    if let Some(id) = primary_output {
        if let Some(i) = find_output(outputs, id) {
            return Some(i);
        }
    }
    if outputs.len() > 0 {
        Some(0)
    } else {
        None
    }
}

fn workspace_shown_on(outputs: &Vec<WorkspaceOutput>, output_id: Option<u64>) -> (workspace: Option<
    u32,
>)
    ensures
        workspace == workspace_on_output(outputs@, output_id),
{
    match output_id {
        Some(id) => {
            proof {
                lemma_first_index_bounds(outputs@, is_output(id), 0);
            }
            match find_output(outputs, id) {
                Some(i) => outputs[i].current_workspace,
                None => None,
            }
        },
        None => None,
    }
}

/// Workspace preferred as the active one: the one on the focused output, else the one on the
/// primary output, else the one on the first output that shows any.
pub fn resolve_preferred_workspace_id(
    outputs: &Vec<WorkspaceOutput>,
    focused_output: Option<u64>,
    primary_output: Option<u64>,
) -> (workspace: Option<u32>)
    ensures
        workspace == preferred_workspace(outputs@, focused_output, primary_output),
{
    let from_focus = workspace_shown_on(outputs, focused_output);
    if from_focus.is_some() {
        return from_focus;
    }
    let from_primary = workspace_shown_on(outputs, primary_output);
    if from_primary.is_some() {
        return from_primary;
    }
    let mut i: usize = 0;
    while i < outputs.len()
        invariant
            i <= outputs@.len(),
            workspace_on_output(outputs@, focused_output) is None,
            workspace_on_output(outputs@, primary_output) is None,
            first_index(outputs@, shows_a_workspace()) == first_index_from(
                outputs@,
                shows_a_workspace(),
                i as int,
            ),
        decreases outputs.len() - i,
    {
        if outputs[i].current_workspace.is_some() {
            return outputs[i].current_workspace;
        }
        i += 1;
    }
    None
}

/// A window and the workspace entity it is parented to.
#[derive(Clone, Copy, Debug, PartialEq, Eq, Structural)]
pub struct WorkspaceWindow {
    pub window: u64,
    pub parent: Option<u64>,
}

/// A change to the world decided by the workspace command step, applied in order.
#[derive(Clone, Debug)]
pub enum WorkspaceEffect {
    /// Spawn a workspace under the reserved entity handle `entity`.
    Spawn { entity: u64, id: u32, name: String, active: bool },
    /// Make `output` show the workspace `workspace_id`.
    ShowWorkspace { output: u64, workspace_id: u32 },
    /// Set the active flag of an existing workspace.
    SetActive { entity: u64, active: bool },
    /// Re-parent a window to another workspace.
    Reparent { window: u64, parent: u64 },
    /// Despawn a workspace.
    Despawn { entity: u64 },
    /// Add (`true`) or remove the active-workspace marker of a workspace.
    SetMarker { entity: u64, marked: bool },
    /// Disable (`true`) or re-enable a workspace together with its children.
    SetDisabled { entity: u64, disabled: bool },
}

/// Mathematical value of a [`WorkspaceEffect`].
pub enum WorkspaceEffectView {
    Spawn { entity: u64, id: u32, name: Seq<char>, active: bool },
    ShowWorkspace { output: u64, workspace_id: u32 },
    SetActive { entity: u64, active: bool },
    Reparent { window: u64, parent: u64 },
    Despawn { entity: u64 },
    SetMarker { entity: u64, marked: bool },
    SetDisabled { entity: u64, disabled: bool },
}

impl View for WorkspaceEffect {
    type V = WorkspaceEffectView;

    open spec fn view(&self) -> WorkspaceEffectView {
        match self {
            WorkspaceEffect::Spawn { entity, id, name, active } => WorkspaceEffectView::Spawn {
                entity: *entity,
                id: *id,
                name: name@,
                active: *active,
            },
            WorkspaceEffect::ShowWorkspace { output, workspace_id } =>
                WorkspaceEffectView::ShowWorkspace { output: *output, workspace_id: *workspace_id },
            WorkspaceEffect::SetActive { entity, active } => WorkspaceEffectView::SetActive {
                entity: *entity,
                active: *active,
            },
            WorkspaceEffect::Reparent { window, parent } => WorkspaceEffectView::Reparent {
                window: *window,
                parent: *parent,
            },
            WorkspaceEffect::Despawn { entity } => WorkspaceEffectView::Despawn { entity: *entity },
            WorkspaceEffect::SetMarker { entity, marked } => WorkspaceEffectView::SetMarker {
                entity: *entity,
                marked: *marked,
            },
            WorkspaceEffect::SetDisabled { entity, disabled } => WorkspaceEffectView::SetDisabled {
                entity: *entity,
                disabled: *disabled,
            },
        }
    }
}

/// Values of a sequence of effects.
pub open spec fn effects_view(effects: Seq<WorkspaceEffect>) -> Seq<WorkspaceEffectView> {
    effects.map_values(|effect: WorkspaceEffect| effect@)
}

/// `SetActive` for every existing workspace: active exactly when it is `target`.
pub open spec fn activation_effects(world: Seq<WorkspaceEntryView>, target: u64) -> Seq<
    WorkspaceEffectView,
>
    decreases world.len(),
{
    if world.len() == 0 {
        seq![]
    } else {
        activation_effects(world.drop_last(), target).push(
            WorkspaceEffectView::SetActive {
                entity: world.last().entity,
                active: world.last().entity == target,
            },
        )
    }
}

/// `SetActive` for every existing workspace other than the destroyed id: active exactly when
/// its id is the fallback id.
pub open spec fn deactivation_effects(
    world: Seq<WorkspaceEntryView>,
    target_id: u32,
    fallback_id: u32,
) -> Seq<WorkspaceEffectView>
    decreases world.len(),
{
    if world.len() == 0 {
        seq![]
    } else {
        let rest = deactivation_effects(world.drop_last(), target_id, fallback_id);
        if world.last().id == target_id {
            rest
        } else {
            rest.push(
                WorkspaceEffectView::SetActive {
                    entity: world.last().entity,
                    active: world.last().id == fallback_id,
                },
            )
        }
    }
}

/// `Reparent` to the fallback for every window parented to the destroyed workspace.
pub open spec fn reparent_effects(
    windows: Seq<WorkspaceWindow>,
    target: u64,
    fallback: Option<u64>,
) -> Seq<WorkspaceEffectView>
    decreases windows.len(),
{
    if windows.len() == 0 {
        seq![]
    } else {
        let rest = reparent_effects(windows.drop_last(), target, fallback);
        let window = windows.last();
        if window.parent == Some(target) && fallback is Some {
            rest.push(
                WorkspaceEffectView::Reparent { window: window.window, parent: fallback->0 },
            )
        } else {
            rest
        }
    }
}

/// `ShowWorkspace` of the fallback for every output showing the destroyed workspace.
pub open spec fn reroute_effects(
    outputs: Seq<WorkspaceOutput>,
    target_id: u32,
    fallback_id: Option<u32>,
) -> Seq<WorkspaceEffectView>
    decreases outputs.len(),
{
    if outputs.len() == 0 {
        seq![]
    } else {
        let rest = reroute_effects(outputs.drop_last(), target_id, fallback_id);
        let output = outputs.last();
        if output.current_workspace == Some(target_id) && fallback_id is Some {
            rest.push(
                WorkspaceEffectView::ShowWorkspace {
                    output: output.entity,
                    workspace_id: fallback_id->0,
                },
            )
        } else {
            rest
        }
    }
}

/// Entries other than `entity`, in order, each active exactly when its id is `id`.
pub open spec fn switch_snapshot(entries: Seq<WorkspaceEntryView>, entity: u64, id: u32) -> Seq<
    WorkspaceEntryView,
>
    decreases entries.len(),
{
    if entries.len() == 0 {
        seq![]
    } else {
        let rest = switch_snapshot(entries.drop_last(), entity, id);
        let entry = entries.last();
        if entry.entity == entity {
            rest
        } else {
            rest.push(
                WorkspaceEntryView {
                    entity: entry.entity,
                    id: entry.id,
                    name: entry.name,
                    active: entry.id == id,
                },
            )
        }
    }
}

/// Entries whose id is not `target_id`, in order, each active exactly when its id is
/// `fallback_id`.
pub open spec fn destroy_snapshot(
    entries: Seq<WorkspaceEntryView>,
    target_id: u32,
    fallback_id: u32,
) -> Seq<WorkspaceEntryView>
    decreases entries.len(),
{
    if entries.len() == 0 {
        seq![]
    } else {
        let rest = destroy_snapshot(entries.drop_last(), target_id, fallback_id);
        let entry = entries.last();
        if entry.id == target_id {
            rest
        } else {
            rest.push(
                WorkspaceEntryView {
                    entity: entry.entity,
                    id: entry.id,
                    name: entry.name,
                    active: entry.id == fallback_id,
                },
            )
        }
    }
}

/// Entry with a given entity handle.
pub open spec fn has_entity(entity: u64) -> spec_fn(WorkspaceEntryView) -> bool {
    |entry: WorkspaceEntryView| entry.entity == entity
}

/// Entry that may take over from the destroyed workspace, preferring an active one.
pub open spec fn preferred_fallback(target_id: u32, target_active: bool) -> spec_fn(
    WorkspaceEntryView,
) -> bool {
    |entry: WorkspaceEntryView| entry.id != target_id && (entry.active || target_active)
}

/// Entry other than the destroyed id.
pub open spec fn other_than(target_id: u32) -> spec_fn(WorkspaceEntryView) -> bool {
    |entry: WorkspaceEntryView| entry.id != target_id
}

/// Workspace that takes over from a destroyed one: the first other workspace that is active (any
/// other one when the destroyed workspace was active), else the first other workspace, else none
/// with id 1.
pub open spec fn fallback_choice(
    entries: Seq<WorkspaceEntryView>,
    target_id: u32,
    target_active: bool,
) -> (Option<u64>, u32) {
    match first_index(entries, preferred_fallback(target_id, target_active)) {
        Some(i) => (Some(entries[i].entity), entries[i].id),
        None => match first_index(entries, other_than(target_id)) {
            Some(i) => (Some(entries[i].entity), entries[i].id),
            None => (None, 1),
        },
    }
}

/// Id of the first entry with the fallback's entity, which outputs are re-routed to.
pub open spec fn fallback_route(entries: Seq<WorkspaceEntryView>, fallback: Option<u64>) -> Option<
    u32,
> {
    match fallback {
        Some(entity) => match first_index(entries, has_entity(entity)) {
            Some(k) => Some(entries[k].id),
            None => None,
        },
        None => None,
    }
}

/// Progress of the command step: the workspace snapshot, the next free entity handle and the
/// effects decided so far.
pub struct CommandProgress {
    pub snapshot: Seq<WorkspaceEntryView>,
    pub next_entity: u64,
    pub effects: Seq<WorkspaceEffectView>,
}

/// The world the command step reads: the workspaces, outputs and windows as they were when the
/// step began, and the focused and primary output ids.
pub struct CommandWorld {
    pub workspaces: Seq<WorkspaceEntryView>,
    pub outputs: Seq<WorkspaceOutput>,
    pub windows: Seq<WorkspaceWindow>,
    pub focused_output: Option<u64>,
    pub primary_output: Option<u64>,
}

/// What one control does.
///  - `Create`: nothing when the lookup already resolves; else spawn an inactive workspace with
///    the lookup's identity under the next entity handle.
///  - `SwitchOrCreate`: resolve the lookup, spawning an active workspace when it does not; show
///    it on the focused / primary / first output, or, without outputs, mark exactly it active
///    among the existing workspaces; the snapshot keeps the others in order, then the target,
///    with only the target's id active.
///  - `Destroy`: nothing when at most one workspace is left or the selector does not resolve;
///    else pick the fallback, re-parent the target's windows and re-route the outputs showing
///    it to the fallback, mark only the fallback id active among the other existing workspaces,
///    despawn the target, and drop its id from the snapshot with only the fallback id active.
pub open spec fn control_step(
    world: CommandWorld,
    state: CommandProgress,
    control: WorkspaceControl,
) -> CommandProgress {
    let entries = state.snapshot;
    match control {
        WorkspaceControl::Create { target } => if first_index(entries, matches_lookup(target)) is Some {
            state
        } else {
            let identity = new_identity(entries, target);
            let entry = WorkspaceEntryView {
                entity: state.next_entity,
                id: identity.0,
                name: identity.1,
                active: false,
            };
            CommandProgress {
                snapshot: entries.push(entry),
                next_entity: (state.next_entity + 1) as u64,
                effects: state.effects.push(
                    WorkspaceEffectView::Spawn {
                        entity: state.next_entity,
                        id: identity.0,
                        name: identity.1,
                        active: false,
                    },
                ),
            }
        },
        WorkspaceControl::SwitchOrCreate { target } => {
            let existing = first_index(entries, matches_lookup(target));
            let identity = new_identity(entries, target);
            let target_entity = match existing {
                Some(i) => entries[i].entity,
                None => state.next_entity,
            };
            let target_id = match existing {
                Some(i) => entries[i].id,
                None => identity.0,
            };
            let target_name = match existing {
                Some(i) => entries[i].name,
                None => identity.1,
            };
            let spawned = match existing {
                Some(_) => Seq::<WorkspaceEffectView>::empty(),
                None => seq![
                    WorkspaceEffectView::Spawn {
                        entity: target_entity,
                        id: target_id,
                        name: target_name,
                        active: true,
                    },
                ],
            };
            let routed = match control_output_index(
                world.outputs,
                world.focused_output,
                world.primary_output,
            ) {
                Some(o) => seq![
                    WorkspaceEffectView::ShowWorkspace {
                        output: world.outputs[o].entity,
                        workspace_id: target_id,
                    },
                ],
                None => activation_effects(world.workspaces, target_entity),
            };
            CommandProgress {
                snapshot: switch_snapshot(entries, target_entity, target_id).push(
                    WorkspaceEntryView {
                        entity: target_entity,
                        id: target_id,
                        name: target_name,
                        active: true,
                    },
                ),
                next_entity: if existing is Some {
                    state.next_entity
                } else {
                    (state.next_entity + 1) as u64
                },
                effects: state.effects + spawned + routed,
            }
        },
        WorkspaceControl::Destroy { target } => if entries.len() <= 1 {
            state
        } else {
            match selector_index(entries, target) {
                None => state,
                Some(t) => {
                    let target_entity = entries[t].entity;
                    let target_id = entries[t].id;
                    let fallback = fallback_choice(entries, target_id, entries[t].active);
                    CommandProgress {
                        snapshot: destroy_snapshot(entries, target_id, fallback.1),
                        next_entity: state.next_entity,
                        effects: state.effects + reparent_effects(
                            world.windows,
                            target_entity,
                            fallback.0,
                        ) + reroute_effects(
                            world.outputs,
                            target_id,
                            fallback_route(entries, fallback.0),
                        ) + deactivation_effects(world.workspaces, target_id, fallback.1) + seq![
                            WorkspaceEffectView::Despawn { entity: target_entity },
                        ],
                    }
                },
            }
        },
    }
}

/// Outcome of applying `controls` in order.
pub open spec fn controls_outcome(
    world: CommandWorld,
    state: CommandProgress,
    controls: Seq<WorkspaceControl>,
) -> CommandProgress
    decreases controls.len(),
{
    if controls.len() == 0 {
        state
    } else {
        control_step(world, controls_outcome(world, state, controls.drop_last()), controls.last())
    }
}

/// Mutable state of the command step.
pub struct WorkspaceCommandState {
    pub snapshot: Vec<WorkspaceEntry>,
    pub next_entity: u64,
    pub effects: Vec<WorkspaceEffect>,
}

impl WorkspaceCommandState {
    /// Value of the state.
    pub open spec fn progress(&self) -> CommandProgress {
        CommandProgress {
            snapshot: entries_view(self.snapshot@),
            next_entity: self.next_entity,
            effects: effects_view(self.effects@),
        }
    }
}

proof fn lemma_push_effect(effects: Seq<WorkspaceEffect>, effect: WorkspaceEffect)
    ensures
        effects_view(effects.push(effect)) == effects_view(effects).push(effect@),
{
    assert(effects_view(effects.push(effect)) =~= effects_view(effects).push(effect@));
}

proof fn lemma_push_entry(entries: Seq<WorkspaceEntry>, entry: WorkspaceEntry)
    ensures
        entries_view(entries.push(entry)) == entries_view(entries).push(entry@),
{
    assert(entries_view(entries.push(entry)) =~= entries_view(entries).push(entry@));
}

proof fn lemma_append_push<A>(prefix: Seq<A>, built: Seq<A>, x: A)
    ensures
        (prefix + built).push(x) == prefix + built.push(x),
{
    assert((prefix + built).push(x) =~= prefix + built.push(x));
}

proof fn lemma_take_step<A>(items: Seq<A>, i: int)
    requires
        0 <= i < items.len(),
    ensures
        items.take(i + 1).drop_last() == items.take(i),
        items.take(i + 1).last() == items[i],
{
    assert(items.take(i + 1).drop_last() =~= items.take(i));
}

fn push_activation_effects(
    world: &Vec<WorkspaceEntry>,
    target: u64,
    effects: &mut Vec<WorkspaceEffect>,
)
    ensures
        effects_view(final(effects)@) == effects_view(old(effects)@) + activation_effects(
            entries_view(world@),
            target,
        ),
{
    let ghost prefix = effects_view(effects@);
    let ghost view = entries_view(world@);
    let mut i: usize = 0;
    while i < world.len()
        invariant
            i <= world@.len(),
            view == entries_view(world@),
            effects_view(effects@) == prefix + activation_effects(view.take(i as int), target),
        decreases world.len() - i,
    {
        proof {
            lemma_take_step(view, i as int);
        }
        let effect = WorkspaceEffect::SetActive {
            entity: world[i].entity,
            active: world[i].entity == target,
        };
        proof {
            lemma_push_effect(effects@, effect);
            lemma_append_push(prefix, activation_effects(view.take(i as int), target), effect@);
        }
        effects.push(effect);
        i += 1;
    }
    assert(view.take(i as int) =~= view);
}

fn push_deactivation_effects(
    world: &Vec<WorkspaceEntry>,
    target_id: u32,
    fallback_id: u32,
    effects: &mut Vec<WorkspaceEffect>,
)
    ensures
        effects_view(final(effects)@) == effects_view(old(effects)@) + deactivation_effects(
            entries_view(world@),
            target_id,
            fallback_id,
        ),
{
    let ghost prefix = effects_view(effects@);
    let ghost view = entries_view(world@);
    let mut i: usize = 0;
    while i < world.len()
        invariant
            i <= world@.len(),
            view == entries_view(world@),
            effects_view(effects@) == prefix + deactivation_effects(
                view.take(i as int),
                target_id,
                fallback_id,
            ),
        decreases world.len() - i,
    {
        proof {
            lemma_take_step(view, i as int);
        }
        if world[i].id != target_id {
            let effect = WorkspaceEffect::SetActive {
                entity: world[i].entity,
                active: world[i].id == fallback_id,
            };
            proof {
                lemma_push_effect(effects@, effect);
                lemma_append_push(
                    prefix,
                    deactivation_effects(view.take(i as int), target_id, fallback_id),
                    effect@,
                );
            }
            effects.push(effect);
        }
        i += 1;
    }
    assert(view.take(i as int) =~= view);
}

fn push_reparent_effects(
    windows: &Vec<WorkspaceWindow>,
    target: u64,
    fallback: Option<u64>,
    effects: &mut Vec<WorkspaceEffect>,
)
    ensures
        effects_view(final(effects)@) == effects_view(old(effects)@) + reparent_effects(
            windows@,
            target,
            fallback,
        ),
{
    let ghost prefix = effects_view(effects@);
    let mut i: usize = 0;
    while i < windows.len()
        invariant
            i <= windows@.len(),
            effects_view(effects@) == prefix + reparent_effects(
                windows@.take(i as int),
                target,
                fallback,
            ),
        decreases windows.len() - i,
    {
        proof {
            lemma_take_step(windows@, i as int);
        }
        if windows[i].parent == Some(target) {
            if let Some(parent) = fallback {
                let effect = WorkspaceEffect::Reparent { window: windows[i].window, parent };
                proof {
                    lemma_push_effect(effects@, effect);
                    lemma_append_push(
                        prefix,
                        reparent_effects(windows@.take(i as int), target, fallback),
                        effect@,
                    );
                }
                effects.push(effect);
            }
        }
        i += 1;
    }
    assert(windows@.take(i as int) =~= windows@);
}

fn push_reroute_effects(
    outputs: &Vec<WorkspaceOutput>,
    target_id: u32,
    fallback_id: Option<u32>,
    effects: &mut Vec<WorkspaceEffect>,
)
    ensures
        effects_view(final(effects)@) == effects_view(old(effects)@) + reroute_effects(
            outputs@,
            target_id,
            fallback_id,
        ),
{
    let ghost prefix = effects_view(effects@);
    let mut i: usize = 0;
    while i < outputs.len()
        invariant
            i <= outputs@.len(),
            effects_view(effects@) == prefix + reroute_effects(
                outputs@.take(i as int),
                target_id,
                fallback_id,
            ),
        decreases outputs.len() - i,
    {
        proof {
            lemma_take_step(outputs@, i as int);
        }
        if outputs[i].current_workspace == Some(target_id) {
            if let Some(workspace_id) = fallback_id {
                let effect = WorkspaceEffect::ShowWorkspace {
                    output: outputs[i].entity,
                    workspace_id,
                };
                proof {
                    lemma_push_effect(effects@, effect);
                    lemma_append_push(
                        prefix,
                        reroute_effects(outputs@.take(i as int), target_id, fallback_id),
                        effect@,
                    );
                }
                effects.push(effect);
            }
        }
        i += 1;
    }
    assert(outputs@.take(i as int) =~= outputs@);
}

fn switched_snapshot(entries: &Vec<WorkspaceEntry>, entity: u64, id: u32) -> (result: Vec<
    WorkspaceEntry,
>)
    ensures
        entries_view(result@) == switch_snapshot(entries_view(entries@), entity, id),
{
    let ghost view = entries_view(entries@);
    let mut result: Vec<WorkspaceEntry> = Vec::new();
    let mut i: usize = 0;
    while i < entries.len()
        invariant
            i <= entries@.len(),
            view == entries_view(entries@),
            entries_view(result@) == switch_snapshot(view.take(i as int), entity, id),
        decreases entries.len() - i,
    {
        proof {
            lemma_take_step(view, i as int);
        }
        if entries[i].entity != entity {
            let entry = WorkspaceEntry {
                entity: entries[i].entity,
                id: entries[i].id,
                name: entries[i].name.clone(),
                active: entries[i].id == id,
            };
            proof {
                lemma_push_entry(result@, entry);
            }
            result.push(entry);
        }
        i += 1;
    }
    assert(view.take(i as int) =~= view);
    result
}

fn destroyed_snapshot(entries: &Vec<WorkspaceEntry>, target_id: u32, fallback_id: u32) -> (result:
    Vec<WorkspaceEntry>)
    ensures
        entries_view(result@) == destroy_snapshot(entries_view(entries@), target_id, fallback_id),
{
    let ghost view = entries_view(entries@);
    let mut result: Vec<WorkspaceEntry> = Vec::new();
    let mut i: usize = 0;
    while i < entries.len()
        invariant
            i <= entries@.len(),
            view == entries_view(entries@),
            entries_view(result@) == destroy_snapshot(view.take(i as int), target_id, fallback_id),
        decreases entries.len() - i,
    {
        proof {
            lemma_take_step(view, i as int);
        }
        if entries[i].id != target_id {
            let entry = WorkspaceEntry {
                entity: entries[i].entity,
                id: entries[i].id,
                name: entries[i].name.clone(),
                active: entries[i].id == fallback_id,
            };
            proof {
                lemma_push_entry(result@, entry);
            }
            result.push(entry);
        }
        i += 1;
    }
    assert(view.take(i as int) =~= view);
    result
}

fn first_entry_where_preferred(entries: &Vec<WorkspaceEntry>, target_id: u32, target_active: bool) -> (index:
    Option<usize>)
    ensures
        match index {
            Some(i) => first_index(
                entries_view(entries@),
                preferred_fallback(target_id, target_active),
            ) == Some(i as int),
            None => first_index(
                entries_view(entries@),
                preferred_fallback(target_id, target_active),
            ) is None,
        },
{
    let ghost view = entries_view(entries@);
    let ghost pred = preferred_fallback(target_id, target_active);
    let mut i: usize = 0;
    while i < entries.len()
        invariant
            i <= entries@.len(),
            view == entries_view(entries@),
            pred == preferred_fallback(target_id, target_active),
            first_index(view, pred) == first_index_from(view, pred, i as int),
        decreases entries.len() - i,
    {
        if entries[i].id != target_id && (entries[i].active || target_active) {
            return Some(i);
        }
        i += 1;
    }
    None
}

fn first_entry_other_than(entries: &Vec<WorkspaceEntry>, target_id: u32) -> (index: Option<usize>)
    ensures
        match index {
            Some(i) => first_index(entries_view(entries@), other_than(target_id)) == Some(i as int),
            None => first_index(entries_view(entries@), other_than(target_id)) is None,
        },
{
    let ghost view = entries_view(entries@);
    let mut i: usize = 0;
    while i < entries.len()
        invariant
            i <= entries@.len(),
            view == entries_view(entries@),
            first_index(view, other_than(target_id)) == first_index_from(
                view,
                other_than(target_id),
                i as int,
            ),
        decreases entries.len() - i,
    {
        if entries[i].id != target_id {
            return Some(i);
        }
        i += 1;
    }
    None
}

fn first_entry_with_entity(entries: &Vec<WorkspaceEntry>, entity: u64) -> (index: Option<usize>)
    ensures
        match index {
            Some(i) => first_index(entries_view(entries@), has_entity(entity)) == Some(i as int),
            None => first_index(entries_view(entries@), has_entity(entity)) is None,
        },
{
    let ghost view = entries_view(entries@);
    let mut i: usize = 0;
    while i < entries.len()
        invariant
            i <= entries@.len(),
            view == entries_view(entries@),
            first_index(view, has_entity(entity)) == first_index_from(
                view,
                has_entity(entity),
                i as int,
            ),
        decreases entries.len() - i,
    {
        if entries[i].entity == entity {
            return Some(i);
        }
        i += 1;
    }
    None
}

/// The workspace taking over from a destroyed one, as `(entity, id)`: see [`fallback_choice`].
pub fn resolve_fallback_workspace(
    entries: &Vec<WorkspaceEntry>,
    target_id: u32,
    target_active: bool,
) -> (fallback: (Option<u64>, u32))
    ensures
        fallback == fallback_choice(entries_view(entries@), target_id, target_active),
{
    proof {
        lemma_first_index_bounds(
            entries_view(entries@),
            preferred_fallback(target_id, target_active),
            0,
        );
        lemma_first_index_bounds(entries_view(entries@), other_than(target_id), 0);
    }
    match first_entry_where_preferred(entries, target_id, target_active) {
        Some(i) => (Some(entries[i].entity), entries[i].id),
        None => match first_entry_other_than(entries, target_id) {
            Some(i) => (Some(entries[i].entity), entries[i].id),
            None => (None, 1),
        },
    }
}

/// The world the command step reads, as executable values.
pub struct WorkspaceCommandInput {
    /// Workspaces when the step began, in query order.
    pub workspaces: Vec<WorkspaceEntry>,
    pub outputs: Vec<WorkspaceOutput>,
    pub windows: Vec<WorkspaceWindow>,
    pub focused_output: Option<u64>,
    pub primary_output: Option<u64>,
}

impl WorkspaceCommandInput {
    /// Value of the input.
    pub open spec fn world(&self) -> CommandWorld {
        CommandWorld {
            workspaces: entries_view(self.workspaces@),
            outputs: self.outputs@,
            windows: self.windows@,
            focused_output: self.focused_output,
            primary_output: self.primary_output,
        }
    }
}

fn clone_entries(entries: &Vec<WorkspaceEntry>) -> (copy: Vec<WorkspaceEntry>)
    ensures
        entries_view(copy@) == entries_view(entries@),
{
    let mut copy: Vec<WorkspaceEntry> = Vec::new();
    let mut i: usize = 0;
    while i < entries.len()
        invariant
            i <= entries@.len(),
            entries_view(copy@) == entries_view(entries@.take(i as int)),
        decreases entries.len() - i,
    {
        let entry = WorkspaceEntry {
            entity: entries[i].entity,
            id: entries[i].id,
            name: entries[i].name.clone(),
            active: entries[i].active,
        };
        proof {
            lemma_push_entry(copy@, entry);
            assert(entries@.take(i + 1) == entries@.take(i as int).push(entries@[i as int]));
            lemma_push_entry(entries@.take(i as int), entries@[i as int]);
        }
        copy.push(entry);
        i += 1;
    }
    assert(entries@.take(i as int) =~= entries@);
    copy
}

/// Applies one staged control to the command state; see [`control_step`].
pub fn apply_workspace_control(
    input: &WorkspaceCommandInput,
    state: &mut WorkspaceCommandState,
    control: &WorkspaceControl,
)
    requires
        old(state).next_entity < u64::MAX,
    ensures
        final(state).progress() == control_step(input.world(), old(state).progress(), *control),
        final(state).next_entity <= old(state).next_entity + 1,
{
    let ghost entries = entries_view(state.snapshot@);
    match control {
        WorkspaceControl::Create { target } => {
            if resolve_workspace_lookup(&state.snapshot, target).is_some() {
                return;
            }
            let (id, name) = create_workspace_identity(&state.snapshot, target);
            let entity = state.next_entity;
            let effect = WorkspaceEffect::Spawn { entity, id, name: name.clone(), active: false };
            let entry = WorkspaceEntry { entity, id, name, active: false };
            proof {
                lemma_push_effect(state.effects@, effect);
                lemma_push_entry(state.snapshot@, entry);
            }
            state.effects.push(effect);
            state.snapshot.push(entry);
            state.next_entity = entity + 1;
        },
        WorkspaceControl::SwitchOrCreate { target } => {
            proof {
                lemma_first_index_bounds(entries, matches_lookup(*target), 0);
            }
            let existing = resolve_workspace_lookup(&state.snapshot, target);
            let (target_entity, target_id, target_name) = match existing {
                Some(i) => (
                    state.snapshot[i].entity,
                    state.snapshot[i].id,
                    state.snapshot[i].name.clone(),
                ),
                None => {
                    let (id, name) = create_workspace_identity(&state.snapshot, target);
                    let entity = state.next_entity;
                    let effect = WorkspaceEffect::Spawn {
                        entity,
                        id,
                        name: name.clone(),
                        active: true,
                    };
                    proof {
                        lemma_push_effect(state.effects@, effect);
                        assert(effects_view(state.effects@).push(effect@) == effects_view(
                            state.effects@,
                        ) + seq![effect@]);
                    }
                    state.effects.push(effect);
                    state.next_entity = entity + 1;
                    (entity, id, name)
                },
            };
            let ghost after_spawn = effects_view(state.effects@);
            match resolve_workspace_control_output(
                &input.outputs,
                input.focused_output,
                input.primary_output,
            ) {
                Some(o) => {
                    let effect = WorkspaceEffect::ShowWorkspace {
                        output: input.outputs[o].entity,
                        workspace_id: target_id,
                    };
                    proof {
                        lemma_push_effect(state.effects@, effect);
                        assert(effects_view(state.effects@).push(effect@) == effects_view(
                            state.effects@,
                        ) + seq![effect@]);
                    }
                    state.effects.push(effect);
                },
                None => {
                    push_activation_effects(&input.workspaces, target_entity, &mut state.effects);
                },
            }
            let mut snapshot = switched_snapshot(&state.snapshot, target_entity, target_id);
            let entry = WorkspaceEntry {
                entity: target_entity,
                id: target_id,
                name: target_name,
                active: true,
            };
            proof {
                lemma_push_entry(snapshot@, entry);
                assert(old(state).progress().effects + Seq::<WorkspaceEffectView>::empty()
                    =~= old(state).progress().effects);
            }
            snapshot.push(entry);
            state.snapshot = snapshot;
        },
        WorkspaceControl::Destroy { target } => {
            if state.snapshot.len() <= 1 {
                return;
            }
            let found = resolve_workspace_selector(&state.snapshot, target);
            let t = match found {
                Some(t) => t,
                None => {
                    return;
                },
            };
            proof {
                match target {
                    WorkspaceSelector::Active => {
                        lemma_first_index_bounds(entries, is_active_entry(), 0);
                        lemma_min_id_index_bounds(entries);
                    },
                    WorkspaceSelector::Id(id) => {
                        lemma_first_index_bounds(
                            entries,
                            matches_lookup(WorkspaceLookup::Id(*id)),
                            0,
                        );
                    },
                    WorkspaceSelector::Name(name) => {
                        lemma_first_index_bounds(
                            entries,
                            matches_lookup(WorkspaceLookup::Name(*name)),
                            0,
                        );
                    },
                }
            }
            let target_entity = state.snapshot[t].entity;
            let target_id = state.snapshot[t].id;
            let target_active = state.snapshot[t].active;
            let (fallback_entity, fallback_id) = resolve_fallback_workspace(
                &state.snapshot,
                target_id,
                target_active,
            );
            let route = match fallback_entity {
                Some(entity) => {
                    proof {
                        lemma_first_index_bounds(entries, has_entity(entity), 0);
                    }
                    match first_entry_with_entity(&state.snapshot, entity) {
                        Some(k) => Some(state.snapshot[k].id),
                        None => None,
                    }
                },
                None => None,
            };
            assert(route == fallback_route(entries, fallback_entity));
            let ghost e0 = effects_view(state.effects@);
            push_reparent_effects(&input.windows, target_entity, fallback_entity, &mut state.effects);
            push_reroute_effects(&input.outputs, target_id, route, &mut state.effects);
            push_deactivation_effects(
                &input.workspaces,
                target_id,
                fallback_id,
                &mut state.effects,
            );
            let effect = WorkspaceEffect::Despawn { entity: target_entity };
            proof {
                lemma_push_effect(state.effects@, effect);
                assert(effects_view(state.effects@).push(effect@) == effects_view(state.effects@)
                    + seq![effect@]);
            }
            state.effects.push(effect);
            state.snapshot = destroyed_snapshot(&state.snapshot, target_id, fallback_id);
        },
    }
}

/// Applies the staged workspace controls in order to the workspaces, outputs and windows of
/// `input`, and returns the effects to perform, in order. Workspaces spawned along the way take
/// the entity handles `first_free_entity`, `first_free_entity + 1`, ...
pub fn workspace_command_system(
    input: &WorkspaceCommandInput,
    controls: &Vec<WorkspaceControl>,
    first_free_entity: u64,
) -> (effects: Vec<WorkspaceEffect>)
    requires
        first_free_entity + controls@.len() < u64::MAX,
    ensures
        effects_view(effects@) == controls_outcome(
            input.world(),
            CommandProgress {
                snapshot: input.world().workspaces,
                next_entity: first_free_entity,
                effects: seq![],
            },
            controls@,
        ).effects,
{
    let ghost initial = CommandProgress {
        snapshot: input.world().workspaces,
        next_entity: first_free_entity,
        effects: seq![],
    };
    let mut state = WorkspaceCommandState {
        snapshot: clone_entries(&input.workspaces),
        next_entity: first_free_entity,
        effects: Vec::new(),
    };
    assert(state.progress().effects =~= Seq::<WorkspaceEffectView>::empty());
    let mut i: usize = 0;
    while i < controls.len()
        invariant
            i <= controls@.len(),
            first_free_entity + controls@.len() < u64::MAX,
            state.next_entity <= first_free_entity + i,
            state.progress() == controls_outcome(input.world(), initial, controls@.take(i as int)),
        decreases controls.len() - i,
    {
        proof {
            lemma_take_step(controls@, i as int);
        }
        apply_workspace_control(input, &mut state, &controls[i]);
        i += 1;
    }
    assert(controls@.take(i as int) =~= controls@);
    state.effects
}

proof fn lemma_switch_snapshot_marks(entries: Seq<WorkspaceEntryView>, entity: u64, id: u32)
    ensures
        forall|i: int|
            0 <= i < switch_snapshot(entries, entity, id).len() ==> (#[trigger] switch_snapshot(
                entries,
                entity,
                id,
            )[i]).active == (switch_snapshot(entries, entity, id)[i].id == id),
    decreases entries.len(),
{
    if entries.len() > 0 {
        lemma_switch_snapshot_marks(entries.drop_last(), entity, id);
        let rest = switch_snapshot(entries.drop_last(), entity, id);
        let all = switch_snapshot(entries, entity, id);
        assert forall|i: int| 0 <= i < all.len() implies (#[trigger] all[i]).active == (all[i].id
            == id) by {
            if i < rest.len() {
                assert(all[i] == rest[i]);
            }
        }
    }
}

proof fn lemma_destroy_snapshot_drops(entries: Seq<WorkspaceEntryView>, target_id: u32, fallback_id: u32)
    ensures
        forall|i: int|
            0 <= i < destroy_snapshot(entries, target_id, fallback_id).len() ==> {
                let entry = #[trigger] destroy_snapshot(entries, target_id, fallback_id)[i];
                entry.id != target_id && entry.active == (entry.id == fallback_id)
            },
    decreases entries.len(),
{
    if entries.len() > 0 {
        lemma_destroy_snapshot_drops(entries.drop_last(), target_id, fallback_id);
        let rest = destroy_snapshot(entries.drop_last(), target_id, fallback_id);
        let all = destroy_snapshot(entries, target_id, fallback_id);
        assert forall|i: int| 0 <= i < all.len() implies (#[trigger] all[i]).id != target_id
            && all[i].active == (all[i].id == fallback_id) by {
            if i < rest.len() {
                assert(all[i] == rest[i]);
            }
        }
    }
}

/// After a switch, the switched-to workspace is the last snapshot entry and the workspaces
/// marked active are exactly those carrying its id.
pub proof fn law_switch_activates_only_target(
    world: CommandWorld,
    state: CommandProgress,
    target: WorkspaceLookup,
)
    ensures
        ({
            let after = control_step(world, state, WorkspaceControl::SwitchOrCreate { target });
            let last = after.snapshot.last();
            &&& after.snapshot.len() > 0
            &&& matches_lookup(target)(last) || first_index(state.snapshot, matches_lookup(target))
                is None
            &&& forall|i: int|
                0 <= i < after.snapshot.len() ==> (#[trigger] after.snapshot[i]).active == (
                after.snapshot[i].id == last.id)
        }),
{
    let entries = state.snapshot;
    lemma_first_index_bounds(entries, matches_lookup(target), 0);
    let after = control_step(world, state, WorkspaceControl::SwitchOrCreate { target });
    let existing = first_index(entries, matches_lookup(target));
    let target_entity = match existing {
        Some(i) => entries[i].entity,
        None => state.next_entity,
    };
    let target_id = match existing {
        Some(i) => entries[i].id,
        None => new_identity(entries, target).0,
    };
    lemma_switch_snapshot_marks(entries, target_entity, target_id);
    let kept = switch_snapshot(entries, target_entity, target_id);
    assert forall|i: int| 0 <= i < after.snapshot.len() implies (#[trigger] after.snapshot[i]).active
        == (after.snapshot[i].id == after.snapshot.last().id) by {
        if i < kept.len() {
            assert(after.snapshot[i] == kept[i]);
        }
    }
}

/// Destroying a workspace while another remains removes every entry with its id, and leaves
/// exactly the fallback's id active.
pub proof fn law_destroy_removes_target(
    world: CommandWorld,
    state: CommandProgress,
    target: WorkspaceSelector,
)
    requires
        state.snapshot.len() > 1,
        selector_index(state.snapshot, target) is Some,
    ensures
        ({
            let t = selector_index(state.snapshot, target)->0;
            let target_id = state.snapshot[t].id;
            let fallback = fallback_choice(state.snapshot, target_id, state.snapshot[t].active);
            let after = control_step(world, state, WorkspaceControl::Destroy { target });
            forall|i: int|
                0 <= i < after.snapshot.len() ==> (#[trigger] after.snapshot[i]).id != target_id
                    && after.snapshot[i].active == (after.snapshot[i].id == fallback.1)
        }),
{
    let t = selector_index(state.snapshot, target)->0;
    let target_id = state.snapshot[t].id;
    let fallback = fallback_choice(state.snapshot, target_id, state.snapshot[t].active);
    lemma_destroy_snapshot_drops(state.snapshot, target_id, fallback.1);
}

/// A single workspace is never destroyed.
pub proof fn law_last_workspace_survives(
    world: CommandWorld,
    state: CommandProgress,
    target: WorkspaceSelector,
)
    requires
        state.snapshot.len() <= 1,
    ensures
        control_step(world, state, WorkspaceControl::Destroy { target }) == state,
{
}

/// Creating a workspace twice has the effect of creating it once.
pub proof fn law_create_is_idempotent(
    world: CommandWorld,
    state: CommandProgress,
    target: WorkspaceLookup,
)
    ensures
        ({
            let once = control_step(world, state, WorkspaceControl::Create { target });
            control_step(world, once, WorkspaceControl::Create { target }) == once
        }),
{
    let entries = state.snapshot;
    let once = control_step(world, state, WorkspaceControl::Create { target });
    if first_index(entries, matches_lookup(target)) is None {
        let identity = new_identity(entries, target);
        let entry = WorkspaceEntryView {
            entity: state.next_entity,
            id: identity.0,
            name: identity.1,
            active: false,
        };
        lemma_first_index_push(entries, entry, matches_lookup(target), 0);
        assert(matches_lookup(target)(entry));
        assert(first_index(once.snapshot, matches_lookup(target)) is Some);
    }
}

/// Entry with a given workspace id.
pub open spec fn has_id(id: u32) -> spec_fn(WorkspaceEntryView) -> bool {
    |entry: WorkspaceEntryView| entry.id == id
}

/// Entry whose id is not yet assigned to an output.
pub open spec fn unassigned(assigned: Set<u32>) -> spec_fn(WorkspaceEntryView) -> bool {
    |entry: WorkspaceEntryView| !assigned.contains(entry.id)
}

/// First pass of output housekeeping: the workspace ids that outputs keep (an output keeps its
/// workspace when it exists and no earlier output kept it), and the outputs that need one.
pub open spec fn kept_routes(outputs: Seq<WorkspaceOutput>, entries: Seq<WorkspaceEntryView>) -> (
    Set<u32>,
    Seq<WorkspaceOutput>,
)
    decreases outputs.len(),
{
    if outputs.len() == 0 {
        (Set::empty(), seq![])
    } else {
        let (assigned, needs) = kept_routes(outputs.drop_last(), entries);
        let output = outputs.last();
        match output.current_workspace {
            Some(w) => if first_index(entries, has_id(w)) is Some && !assigned.contains(w) {
                (assigned.insert(w), needs)
            } else {
                (assigned, needs.push(output))
            },
            None => (assigned, needs.push(output)),
        }
    }
}

/// Progress of the second pass of output housekeeping.
pub struct HousekeepingProgress {
    pub snapshot: Seq<WorkspaceEntryView>,
    pub assigned: Set<u32>,
    pub remembered: RememberedView,
    pub next_entity: u64,
    pub effects: Seq<WorkspaceEffectView>,
}

/// Workspace given to one output that needs one: its remembered workspace when that exists and is
/// not assigned yet, else the first unassigned workspace, else a new workspace with a fresh id
/// named by its digits; the output shows it and the choice is remembered.
pub open spec fn housekeeping_step(state: HousekeepingProgress, output: WorkspaceOutput) -> HousekeepingProgress {
    let entries = state.snapshot;
    let remembered = match remembered_lookup(state.remembered, output.name@) {
        Some(w) => if !state.assigned.contains(w) {
            first_index(entries, has_id(w))
        } else {
            None
        },
        None => None,
    };
    let existing = match remembered {
        Some(k) => Some(k),
        None => first_index(entries, unassigned(state.assigned)),
    };
    let fresh_id = next_id_after(entries);
    let chosen_id = match existing {
        Some(k) => entries[k].id,
        None => fresh_id,
    };
    let show = WorkspaceEffectView::ShowWorkspace { output: output.entity, workspace_id: chosen_id };
    let remembered_after = RememberedView {
        by_id: state.remembered.by_id.insert(output.output_id, chosen_id),
        names: state.remembered.names.insert(output.name@, output.output_id),
    };
    match existing {
        Some(_) => HousekeepingProgress {
            snapshot: entries,
            assigned: state.assigned.insert(chosen_id),
            remembered: remembered_after,
            next_entity: state.next_entity,
            effects: state.effects.push(show),
        },
        None => HousekeepingProgress {
            snapshot: entries.push(
                WorkspaceEntryView {
                    entity: state.next_entity,
                    id: fresh_id,
                    name: decimal(fresh_id as nat),
                    active: false,
                },
            ),
            assigned: state.assigned.insert(chosen_id),
            remembered: remembered_after,
            next_entity: (state.next_entity + 1) as u64,
            effects: state.effects.push(
                WorkspaceEffectView::Spawn {
                    entity: state.next_entity,
                    id: fresh_id,
                    name: decimal(fresh_id as nat),
                    active: false,
                },
            ).push(show),
        },
    }
}

/// Second pass over the outputs that need a workspace, in order.
pub open spec fn housekeeping_fold(state: HousekeepingProgress, needs: Seq<WorkspaceOutput>) -> HousekeepingProgress
    decreases needs.len(),
{
    if needs.len() == 0 {
        state
    } else {
        housekeeping_step(housekeeping_fold(state, needs.drop_last()), needs.last())
    }
}

/// Outcome of output housekeeping: nothing without outputs; else the second pass started from
/// the kept workspaces.
pub open spec fn housekeeping_outcome(
    outputs: Seq<WorkspaceOutput>,
    entries: Seq<WorkspaceEntryView>,
    remembered: RememberedView,
    first_free_entity: u64,
) -> HousekeepingProgress {
    let start = HousekeepingProgress {
        snapshot: entries,
        assigned: kept_routes(outputs, entries).0,
        remembered,
        next_entity: first_free_entity,
        effects: seq![],
    };
    if outputs.len() == 0 {
        start
    } else {
        housekeeping_fold(start, kept_routes(outputs, entries).1)
    }
}

fn first_entry_with_id(entries: &Vec<WorkspaceEntry>, id: u32) -> (index: Option<usize>)
    ensures
        match index {
            Some(i) => first_index(entries_view(entries@), has_id(id)) == Some(i as int),
            None => first_index(entries_view(entries@), has_id(id)) is None,
        },
{
    let ghost view = entries_view(entries@);
    let mut i: usize = 0;
    while i < entries.len()
        invariant
            i <= entries@.len(),
            view == entries_view(entries@),
            first_index(view, has_id(id)) == first_index_from(view, has_id(id), i as int),
        decreases entries.len() - i,
    {
        if entries[i].id == id {
            return Some(i);
        }
        i += 1;
    }
    None
}

fn first_unassigned_entry(entries: &Vec<WorkspaceEntry>, assigned: &BTreeSet<u32>) -> (index: Option<
    usize,
>)
    ensures
        match index {
            Some(i) => first_index(entries_view(entries@), unassigned(assigned@)) == Some(i as int),
            None => first_index(entries_view(entries@), unassigned(assigned@)) is None,
        },
{
    let ghost view = entries_view(entries@);
    let mut i: usize = 0;
    while i < entries.len()
        invariant
            i <= entries@.len(),
            view == entries_view(entries@),
            first_index(view, unassigned(assigned@)) == first_index_from(
                view,
                unassigned(assigned@),
                i as int,
            ),
        decreases entries.len() - i,
    {
        if !assigned.contains(&entries[i].id) {
            return Some(i);
        }
        i += 1;
    }
    None
}

/// Ensures every output points at one visible workspace and that one workspace is not projected
/// on multiple outputs at once; see [`housekeeping_outcome`]. Returns the effects to perform, in
/// order; new workspaces take the entity handles from `first_free_entity` on.
pub fn output_workspace_housekeeping_system(
    outputs: &Vec<WorkspaceOutput>,
    workspaces: &Vec<WorkspaceEntry>,
    remembered: &mut RememberedOutputWorkspaceState,
    first_free_entity: u64,
) -> (effects: Vec<WorkspaceEffect>)
    requires
        first_free_entity + outputs@.len() < u64::MAX,
    ensures
        ({
            let outcome = housekeeping_outcome(
                outputs@,
                entries_view(workspaces@),
                old(remembered)@,
                first_free_entity,
            );
            &&& effects_view(effects@) == outcome.effects
            &&& final(remembered)@ == outcome.remembered
        }),
{
    let ghost entries = entries_view(workspaces@);
    if outputs.len() == 0 {
        let none: Vec<WorkspaceEffect> = Vec::new();
        assert(effects_view(none@) =~= Seq::<WorkspaceEffectView>::empty());
        return none;
    }
    let mut assigned: BTreeSet<u32> = BTreeSet::new();
    let mut needs: Vec<usize> = Vec::new();
    let mut i: usize = 0;
    while i < outputs.len()
        invariant
            i <= outputs@.len(),
            entries == entries_view(workspaces@),
            needs@.len() <= i,
            forall|j: int| 0 <= j < needs@.len() ==> needs@[j] < outputs@.len(),
            assigned@ == kept_routes(outputs@.take(i as int), entries).0,
            needs@.map_values(|j: usize| outputs@[j as int]) == kept_routes(
                outputs@.take(i as int),
                entries,
            ).1,
        decreases outputs.len() - i,
    {
        proof {
            lemma_take_step(outputs@, i as int);
        }
        let ghost before = needs@;
        let mut keep = false;
        if let Some(w) = outputs[i].current_workspace {
            proof {
                lemma_first_index_bounds(entries, has_id(w), 0);
            }
            if first_entry_with_id(workspaces, w).is_some() && !assigned.contains(&w) {
                assigned.insert(w);
                keep = true;
            }
        }
        if !keep {
            needs.push(i);
            assert(needs@.map_values(|j: usize| outputs@[j as int]) =~= before.map_values(
                |j: usize| outputs@[j as int],
            ).push(outputs@[i as int]));
        }
        i += 1;
    }
    assert(outputs@.take(i as int) =~= outputs@);
    let ghost needed = kept_routes(outputs@, entries).1;
    let mut snapshot = clone_entries(workspaces);
    let mut next_entity = first_free_entity;
    let mut effects: Vec<WorkspaceEffect> = Vec::new();
    let ghost start = HousekeepingProgress {
        snapshot: entries,
        assigned: assigned@,
        remembered: remembered@,
        next_entity: first_free_entity,
        effects: seq![],
    };
    assert(effects_view(effects@) =~= Seq::<WorkspaceEffectView>::empty());
    let mut n: usize = 0;
    while n < needs.len()
        invariant
            n <= needs@.len(),
            needs@.len() <= outputs@.len(),
            first_free_entity + outputs@.len() < u64::MAX,
            next_entity <= first_free_entity + n,
            forall|j: int| 0 <= j < needs@.len() ==> needs@[j] < outputs@.len(),
            needs@.map_values(|j: usize| outputs@[j as int]) == needed,
            ({
                let progress = housekeeping_fold(start, needed.take(n as int));
                &&& entries_view(snapshot@) == progress.snapshot
                &&& assigned@ == progress.assigned
                &&& remembered@ == progress.remembered
                &&& next_entity == progress.next_entity
                &&& effects_view(effects@) == progress.effects
            }),
        decreases needs.len() - n,
    {
        proof {
            lemma_take_step(needed, n as int);
            assert(needed[n as int] == outputs@[needs@[n as int] as int]);
        }
        let output = &outputs[needs[n]];
        let ghost view = entries_view(snapshot@);
        let from_memory = match remembered.workspace_for_output_name(output.name.as_str()) {
            Some(w) => if !assigned.contains(&w) {
                proof {
                    lemma_first_index_bounds(view, has_id(w), 0);
                }
                first_entry_with_id(&snapshot, w)
            } else {
                None
            },
            None => None,
        };
        proof {
            lemma_first_index_bounds(view, unassigned(assigned@), 0);
        }
        let existing = match from_memory {
            Some(k) => Some(k),
            None => first_unassigned_entry(&snapshot, &assigned),
        };
        let chosen_id = match existing {
            Some(k) => snapshot[k].id,
            None => {
                let fresh_id = next_workspace_id(&snapshot);
                let name = u32_to_string(fresh_id);
                let spawn = WorkspaceEffect::Spawn {
                    entity: next_entity,
                    id: fresh_id,
                    name: name.clone(),
                    active: false,
                };
                let entry = WorkspaceEntry { entity: next_entity, id: fresh_id, name, active: false };
                proof {
                    lemma_push_effect(effects@, spawn);
                    lemma_push_entry(snapshot@, entry);
                }
                effects.push(spawn);
                snapshot.push(entry);
                next_entity = next_entity + 1;
                fresh_id
            },
        };
        assigned.insert(chosen_id);
        let show = WorkspaceEffect::ShowWorkspace { output: output.entity, workspace_id: chosen_id };
        proof {
            lemma_push_effect(effects@, show);
        }
        effects.push(show);
        remembered.remember(output.output_id, output.name.clone(), chosen_id);
        n += 1;
    }
    assert(needed.take(n as int) =~= needed);
    effects
}

/// Workspace ids shown by the `ShowWorkspace` effects, in order.
pub open spec fn shown_workspaces(effects: Seq<WorkspaceEffectView>) -> Seq<u32>
    decreases effects.len(),
{
    if effects.len() == 0 {
        seq![]
    } else {
        let rest = shown_workspaces(effects.drop_last());
        match effects.last() {
            WorkspaceEffectView::ShowWorkspace { workspace_id, .. } => rest.push(workspace_id),
            _ => rest,
        }
    }
}

proof fn lemma_max_workspace_id_covers(entries: Seq<WorkspaceEntryView>)
    ensures
        forall|k: int| 0 <= k < entries.len() ==> (#[trigger] entries[k]).id <= max_workspace_id(
            entries,
        ),
    decreases entries.len(),
{
    if entries.len() > 0 {
        lemma_max_workspace_id_covers(entries.drop_last());
        assert forall|k: int| 0 <= k < entries.len() implies (#[trigger] entries[k]).id
            <= max_workspace_id(entries) by {
            if k < entries.len() - 1 {
                assert(entries[k] == entries.drop_last()[k]);
            }
        }
    }
}

proof fn lemma_kept_ids_exist(outputs: Seq<WorkspaceOutput>, entries: Seq<WorkspaceEntryView>)
    ensures
        forall|w: u32| #[trigger]
            kept_routes(outputs, entries).0.contains(w) ==> w <= max_workspace_id(entries),
        kept_routes(outputs, entries).1.len() <= outputs.len(),
    decreases outputs.len(),
{
    lemma_max_workspace_id_covers(entries);
    if outputs.len() > 0 {
        lemma_kept_ids_exist(outputs.drop_last(), entries);
        if let Some(w) = outputs.last().current_workspace {
            lemma_first_index_bounds(entries, has_id(w), 0);
        }
    }
}

/// Invariant of the second housekeeping pass behind [`law_housekeeping_shows_distinct_workspaces`].
pub open spec fn housekeeping_consistent(state: HousekeepingProgress, kept: Set<u32>) -> bool {
    let shown = shown_workspaces(state.effects);
    &&& forall|w: u32| #[trigger]
        state.assigned.contains(w) ==> w <= max_workspace_id(state.snapshot)
    &&& forall|w: u32| #[trigger]
        state.assigned.contains(w) <==> kept.contains(w) || shown.contains(w)
    &&& shown.no_duplicates()
    &&& forall|i: int| 0 <= i < shown.len() ==> !kept.contains(#[trigger] shown[i])
}

proof fn lemma_housekeeping_fold_consistent(
    start: HousekeepingProgress,
    kept: Set<u32>,
    needs: Seq<WorkspaceOutput>,
)
    requires
        housekeeping_consistent(start, kept),
        max_workspace_id(start.snapshot) + needs.len() < u32::MAX,
    ensures
        housekeeping_consistent(housekeeping_fold(start, needs), kept),
        max_workspace_id(housekeeping_fold(start, needs).snapshot) <= max_workspace_id(
            start.snapshot,
        ) + needs.len(),
    decreases needs.len(),
{
    if needs.len() > 0 {
        lemma_housekeeping_fold_consistent(start, kept, needs.drop_last());
        let state = housekeeping_fold(start, needs.drop_last());
        let output = needs.last();
        let entries = state.snapshot;
        let after = housekeeping_step(state, output);
        lemma_max_workspace_id_covers(entries);
        lemma_max_workspace_id_bounds(entries);
        lemma_first_index_bounds(entries, unassigned(state.assigned), 0);
        if let Some(w) = remembered_lookup(state.remembered, output.name@) {
            lemma_first_index_bounds(entries, has_id(w), 0);
        }
        let shown = shown_workspaces(state.effects);
        let remembered = match remembered_lookup(state.remembered, output.name@) {
            Some(w) => if !state.assigned.contains(w) {
                first_index(entries, has_id(w))
            } else {
                None
            },
            None => None,
        };
        let existing = match remembered {
            Some(k) => Some(k),
            None => first_index(entries, unassigned(state.assigned)),
        };
        let fresh_id = next_id_after(entries);
        let chosen = match existing {
            Some(k) => entries[k].id,
            None => fresh_id,
        };
        let show = WorkspaceEffectView::ShowWorkspace { output: output.entity, workspace_id: chosen };
        assert(!state.assigned.contains(chosen));
        if existing is Some {
            assert(after.effects == state.effects.push(show));
            assert(after.effects.drop_last() =~= state.effects);
            assert(after.snapshot == entries);
        } else {
            let spawn = WorkspaceEffectView::Spawn {
                entity: state.next_entity,
                id: fresh_id,
                name: decimal(fresh_id as nat),
                active: false,
            };
            assert(after.effects == state.effects.push(spawn).push(show));
            assert(after.effects.drop_last() =~= state.effects.push(spawn));
            assert(state.effects.push(spawn).drop_last() =~= state.effects);
            assert(shown_workspaces(state.effects.push(spawn)) == shown);
            assert(after.snapshot.drop_last() =~= entries);
            assert(max_workspace_id(after.snapshot) == fresh_id);
        }
        assert(shown_workspaces(after.effects) =~= shown.push(chosen));
        assert(!shown.contains(chosen));
        assert forall|w: u32| #[trigger] after.assigned.contains(w) implies w <= max_workspace_id(
            after.snapshot,
        ) by {
        }
        assert forall|i: int| 0 <= i < shown.push(chosen).len() implies !kept.contains(
            #[trigger] shown.push(chosen)[i],
        ) by {
            if i < shown.len() {
                assert(shown.push(chosen)[i] == shown[i]);
            }
        }
        assert(after.assigned == state.assigned.insert(chosen));
        assert forall|w: u32| #[trigger] after.assigned.contains(w) implies kept.contains(w)
            || shown.push(chosen).contains(w) by {
            if w != chosen {
                if shown.contains(w) {
                    let k = choose|k: int| 0 <= k < shown.len() && shown[k] == w;
                    assert(shown.push(chosen)[k] == w);
                }
            } else {
                assert(shown.push(chosen)[shown.len() as int] == chosen);
            }
        }
        assert forall|w: u32| kept.contains(w) || shown.push(chosen).contains(w) implies #[trigger]
            after.assigned.contains(w) by {
            if shown.push(chosen).contains(w) && w != chosen {
                let k = choose|k: int| 0 <= k < shown.push(chosen).len() && shown.push(chosen)[k] == w;
                assert(shown[k] == w);
            }
        }
        assert(shown.push(chosen).no_duplicates()) by {
            assert forall|i: int, j: int|
                0 <= i < j < shown.push(chosen).len() implies shown.push(chosen)[i] != shown.push(
                chosen,
            )[j] by {
                if j == shown.len() {
                    assert(shown.push(chosen)[i] == shown[i]);
                } else {
                    assert(shown.push(chosen)[i] == shown[i]);
                    assert(shown.push(chosen)[j] == shown[j]);
                }
            }
        }
    }
}

/// No workspace is projected on two outputs: the workspaces that housekeeping shows are pairwise
/// distinct and distinct from those that outputs keep. (A new workspace takes the id one past the
/// largest, so the ids must leave room for one per output.)
pub proof fn law_housekeeping_shows_distinct_workspaces(
    outputs: Seq<WorkspaceOutput>,
    entries: Seq<WorkspaceEntryView>,
    remembered: RememberedView,
    first_free_entity: u64,
)
    requires
        max_workspace_id(entries) + outputs.len() < u32::MAX,
    ensures
        ({
            let shown = shown_workspaces(
                housekeeping_outcome(outputs, entries, remembered, first_free_entity).effects,
            );
            let kept = kept_routes(outputs, entries).0;
            &&& shown.no_duplicates()
            &&& forall|i: int| 0 <= i < shown.len() ==> !kept.contains(#[trigger] shown[i])
        }),
{
    let kept = kept_routes(outputs, entries).0;
    lemma_kept_ids_exist(outputs, entries);
    let start = HousekeepingProgress {
        snapshot: entries,
        assigned: kept,
        remembered,
        next_entity: first_free_entity,
        effects: seq![],
    };
    assert(shown_workspaces(start.effects) =~= Seq::<u32>::empty());
    assert(housekeeping_consistent(start, kept));
    if outputs.len() > 0 {
        lemma_housekeeping_fold_consistent(start, kept, kept_routes(outputs, entries).1);
    }
}

/// Outputs told to show a workspace, in order.
pub open spec fn shown_outputs(effects: Seq<WorkspaceEffectView>) -> Seq<u64>
    decreases effects.len(),
{
    if effects.len() == 0 {
        seq![]
    } else {
        let rest = shown_outputs(effects.drop_last());
        match effects.last() {
            WorkspaceEffectView::ShowWorkspace { output, .. } => rest.push(output),
            _ => rest,
        }
    }
}

proof fn lemma_housekeeping_fold_shows_each_need(start: HousekeepingProgress, needs: Seq<WorkspaceOutput>)
    ensures
        shown_outputs(housekeeping_fold(start, needs).effects) == shown_outputs(start.effects)
            + needs.map_values(|output: WorkspaceOutput| output.entity),
    decreases needs.len(),
{
    if needs.len() > 0 {
        lemma_housekeeping_fold_shows_each_need(start, needs.drop_last());
        let state = housekeeping_fold(start, needs.drop_last());
        let after = housekeeping_step(state, needs.last());
        let output = needs.last();
        let entity = output.entity;
        let entries = state.snapshot;
        let remembered = match remembered_lookup(state.remembered, output.name@) {
            Some(w) => if !state.assigned.contains(w) {
                first_index(entries, has_id(w))
            } else {
                None
            },
            None => None,
        };
        let existing = match remembered {
            Some(k) => Some(k),
            None => first_index(entries, unassigned(state.assigned)),
        };
        let fresh_id = next_id_after(entries);
        let chosen = match existing {
            Some(k) => entries[k].id,
            None => fresh_id,
        };
        let show = WorkspaceEffectView::ShowWorkspace { output: entity, workspace_id: chosen };
        if existing is Some {
            assert(after.effects == state.effects.push(show));
            assert(after.effects.drop_last() =~= state.effects);
            assert(after.effects.last() == show);
            assert(shown_outputs(after.effects) == shown_outputs(state.effects).push(entity));
        } else {
            let spawn = WorkspaceEffectView::Spawn {
                entity: state.next_entity,
                id: fresh_id,
                name: decimal(fresh_id as nat),
                active: false,
            };
            assert(after.effects == state.effects.push(spawn).push(show));
            assert(after.effects.drop_last() =~= state.effects.push(spawn));
            assert(state.effects.push(spawn).drop_last() =~= state.effects);
            assert(state.effects.push(spawn).last() == spawn);
            assert(shown_outputs(state.effects.push(spawn)) == shown_outputs(state.effects));
            assert(after.effects.last() == show);
            assert(shown_outputs(after.effects) == shown_outputs(state.effects).push(entity));
        }
        assert(needs.map_values(|output: WorkspaceOutput| output.entity) =~= needs.drop_last().map_values(
            |output: WorkspaceOutput| output.entity,
        ).push(entity));
    } else {
        assert(needs.map_values(|output: WorkspaceOutput| output.entity) =~= Seq::<u64>::empty());
    }
}

proof fn lemma_kept_or_needed(outputs: Seq<WorkspaceOutput>, entries: Seq<WorkspaceEntryView>)
    ensures
        forall|i: int|
            0 <= i < outputs.len() ==> kept_routes(outputs, entries).1.contains(#[trigger] outputs[i])
                || (outputs[i].current_workspace matches Some(w) && kept_routes(outputs, entries).0.contains(w)),
    decreases outputs.len(),
{
    if outputs.len() > 0 {
        lemma_kept_or_needed(outputs.drop_last(), entries);
        let (assigned, needs) = kept_routes(outputs.drop_last(), entries);
        let (assigned2, needs2) = kept_routes(outputs, entries);
        assert(forall|w: u32| assigned.contains(w) ==> assigned2.contains(w));
        assert(forall|o: WorkspaceOutput| needs.contains(o) ==> needs2.contains(o)) by {
            assert forall|o: WorkspaceOutput| needs.contains(o) implies needs2.contains(o) by {
                let k = choose|k: int| 0 <= k < needs.len() && needs[k] == o;
                if needs2 != needs {
                    assert(needs2 == needs.push(outputs.last()));
                    assert(needs2[k] == o);
                }
            }
        }
        assert forall|i: int| 0 <= i < outputs.len() implies needs2.contains(#[trigger] outputs[i])
            || (outputs[i].current_workspace matches Some(w) && assigned2.contains(w)) by {
            if i < outputs.len() - 1 {
                assert(outputs.drop_last()[i] == outputs[i]);
            } else {
                if needs2 != needs {
                    assert(needs2[needs.len() as int] == outputs.last());
                }
            }
        }
    }
}

/// Housekeeping leaves every output with a workspace: an output either keeps the existing
/// workspace it shows (no earlier output kept it) or is told to show one.
pub proof fn law_housekeeping_gives_every_output_a_workspace(
    outputs: Seq<WorkspaceOutput>,
    entries: Seq<WorkspaceEntryView>,
    remembered: RememberedView,
    first_free_entity: u64,
)
    ensures
        forall|i: int|
            0 <= i < outputs.len() ==> shown_outputs(
                housekeeping_outcome(outputs, entries, remembered, first_free_entity).effects,
            ).contains((#[trigger] outputs[i]).entity) || (outputs[i].current_workspace matches Some(w)
                && kept_routes(outputs, entries).0.contains(w)),
{
    lemma_kept_or_needed(outputs, entries);
    let start = HousekeepingProgress {
        snapshot: entries,
        assigned: kept_routes(outputs, entries).0,
        remembered,
        next_entity: first_free_entity,
        effects: seq![],
    };
    let needs = kept_routes(outputs, entries).1;
    if outputs.len() > 0 {
        lemma_housekeeping_fold_shows_each_need(start, needs);
        assert(shown_outputs(start.effects) =~= Seq::<u64>::empty());
        assert forall|i: int| 0 <= i < outputs.len() && needs.contains(#[trigger] outputs[i]) implies shown_outputs(
            housekeeping_outcome(outputs, entries, remembered, first_free_entity).effects,
        ).contains(outputs[i].entity) by {
            let k = choose|k: int| 0 <= k < needs.len() && needs[k] == outputs[i];
            assert(needs.map_values(|output: WorkspaceOutput| output.entity)[k] == outputs[i].entity);
        }
    }
}

/// An output that needs a workspace gets its remembered one when that workspace exists and no
/// other output has it yet.
pub proof fn law_housekeeping_reuses_remembered_workspace(
    state: HousekeepingProgress,
    output: WorkspaceOutput,
    workspace_id: u32,
)
    requires
        remembered_lookup(state.remembered, output.name@) == Some(workspace_id),
        !state.assigned.contains(workspace_id),
        first_index(state.snapshot, has_id(workspace_id)) is Some,
    ensures
        housekeeping_step(state, output).effects == state.effects.push(
            WorkspaceEffectView::ShowWorkspace { output: output.entity, workspace_id },
        ),
        housekeeping_step(state, output).snapshot == state.snapshot,
{
    lemma_first_index_bounds(state.snapshot, has_id(workspace_id), 0);
}

/// `SetActive` for every workspace: active exactly when its id is `id`.
pub open spec fn activation_by_id(entries: Seq<WorkspaceEntryView>, id: u32) -> Seq<
    WorkspaceEffectView,
>
    decreases entries.len(),
{
    if entries.len() == 0 {
        seq![]
    } else {
        activation_by_id(entries.drop_last(), id).push(
            WorkspaceEffectView::SetActive {
                entity: entries.last().entity,
                active: entries.last().id == id,
            },
        )
    }
}

/// Ensures that at least one workspace exists and one is active: without workspaces, spawn
/// workspace 1 (named `1`, active) under `first_free_entity`; when none is active, activate the
/// smallest id; else nothing.
pub open spec fn switch_housekeeping(entries: Seq<WorkspaceEntryView>, first_free_entity: u64) -> Seq<
    WorkspaceEffectView,
> {
    if entries.len() == 0 {
        seq![
            WorkspaceEffectView::Spawn {
                entity: first_free_entity,
                id: 1,
                name: decimal(1),
                active: true,
            },
        ]
    } else if first_index(entries, is_active_entry()) is None {
        activation_by_id(entries, entries[min_id_index(entries)->0].id)
    } else {
        seq![]
    }
}

/// Ensures the compositor always has at least one active workspace; see
/// [`switch_housekeeping`].
pub fn workspace_switch_system(workspaces: &Vec<WorkspaceEntry>, first_free_entity: u64) -> (effects:
    Vec<WorkspaceEffect>)
    ensures
        effects_view(effects@) == switch_housekeeping(entries_view(workspaces@), first_free_entity),
{
    let ghost entries = entries_view(workspaces@);
    let mut effects: Vec<WorkspaceEffect> = Vec::new();
    if workspaces.len() == 0 {
        let effect = WorkspaceEffect::Spawn {
            entity: first_free_entity,
            id: 1,
            name: u32_to_string(1),
            active: true,
        };
        proof {
            lemma_push_effect(effects@, effect);
        }
        effects.push(effect);
        assert(effects_view(effects@) =~= switch_housekeeping(entries, first_free_entity));
        return effects;
    }
    if first_active_index(workspaces).is_some() {
        assert(effects_view(effects@) =~= Seq::<WorkspaceEffectView>::empty());
        return effects;
    }
    proof {
        lemma_min_id_index_bounds(entries);
    }
    let fallback_id = match min_id_index_of(workspaces) {
        Some(k) => workspaces[k].id,
        None => 1,
    };
    assert(effects_view(effects@) =~= activation_by_id(entries.take(0), fallback_id));
    let mut i: usize = 0;
    while i < workspaces.len()
        invariant
            i <= workspaces@.len(),
            entries == entries_view(workspaces@),
            effects_view(effects@) == activation_by_id(entries.take(i as int), fallback_id),
        decreases workspaces.len() - i,
    {
        proof {
            lemma_take_step(entries, i as int);
        }
        let effect = WorkspaceEffect::SetActive {
            entity: workspaces[i].entity,
            active: workspaces[i].id == fallback_id,
        };
        proof {
            lemma_push_effect(effects@, effect);
        }
        effects.push(effect);
        i += 1;
    }
    assert(entries.take(i as int) =~= entries);
    effects
}

/// A workspace with its active flag and one marker flag (the active-workspace marker, or the
/// disabled state).
#[derive(Clone, Copy, Debug, PartialEq, Eq, Structural)]
pub struct WorkspaceFlags {
    pub entity: u64,
    pub id: u32,
    pub active: bool,
    pub flagged: bool,
}

/// Flags with a given id.
pub open spec fn flags_with_id(id: u32) -> spec_fn(WorkspaceFlags) -> bool {
    |flags: WorkspaceFlags| flags.id == id
}

/// Index of the first workspace with the smallest id.
pub open spec fn min_flags_index(workspaces: Seq<WorkspaceFlags>) -> Option<int>
    decreases workspaces.len(),
{
    if workspaces.len() == 0 {
        None
    } else {
        match min_flags_index(workspaces.drop_last()) {
            Some(k) => if workspaces[k].id <= workspaces.last().id {
                Some(k)
            } else {
                Some(workspaces.len() - 1)
            },
            None => Some(workspaces.len() - 1),
        }
    }
}

/// Entity of the workspace to mark active: the first one with the preferred id, else the first
/// with the smallest id.
pub open spec fn marked_workspace(workspaces: Seq<WorkspaceFlags>, preferred: Option<u32>) -> Option<u64> {
    let by_preference = match preferred {
        Some(id) => first_index(workspaces, flags_with_id(id)),
        None => None,
    };
    match by_preference {
        Some(k) => Some(workspaces[k].entity),
        None => match min_flags_index(workspaces) {
            Some(k) => Some(workspaces[k].entity),
            None => None,
        },
    }
}

/// Per workspace, in order: `SetActive` when its active flag differs from being the chosen one,
/// then `SetMarker` when its marker differs.
pub open spec fn marker_effects(workspaces: Seq<WorkspaceFlags>, chosen: Option<u64>) -> Seq<
    WorkspaceEffectView,
>
    decreases workspaces.len(),
{
    if workspaces.len() == 0 {
        seq![]
    } else {
        let rest = marker_effects(workspaces.drop_last(), chosen);
        let workspace = workspaces.last();
        let is_active = chosen == Some(workspace.entity);
        let rest = if workspace.active != is_active {
            rest.push(WorkspaceEffectView::SetActive { entity: workspace.entity, active: is_active })
        } else {
            rest
        };
        if workspace.flagged != is_active {
            rest.push(WorkspaceEffectView::SetMarker { entity: workspace.entity, marked: is_active })
        } else {
            rest
        }
    }
}

proof fn lemma_min_flags_index_bounds(workspaces: Seq<WorkspaceFlags>)
    ensures
        workspaces.len() == 0 <==> min_flags_index(workspaces) is None,
        min_flags_index(workspaces) matches Some(k) ==> 0 <= k < workspaces.len(),
    decreases workspaces.len(),
{
    if workspaces.len() > 0 {
        lemma_min_flags_index_bounds(workspaces.drop_last());
    }
}

fn min_flags_index_of(workspaces: &Vec<WorkspaceFlags>) -> (index: Option<usize>)
    ensures
        match index {
            Some(k) => min_flags_index(workspaces@) == Some(k as int),
            None => min_flags_index(workspaces@) is None,
        },
{
    let mut best: Option<usize> = None;
    let mut i: usize = 0;
    while i < workspaces.len()
        invariant
            i <= workspaces@.len(),
            match best {
                Some(k) => min_flags_index(workspaces@.take(i as int)) == Some(k as int),
                None => min_flags_index(workspaces@.take(i as int)) is None,
            },
        decreases workspaces.len() - i,
    {
        proof {
            lemma_take_step(workspaces@, i as int);
            lemma_min_flags_index_bounds(workspaces@.take(i as int));
        }
        match best {
            Some(k) => {
                assert(workspaces@.take(i + 1)[k as int] == workspaces@[k as int]);
                if workspaces[i].id < workspaces[k].id {
                    best = Some(i);
                }
            },
            None => {
                best = Some(i);
            },
        }
        i += 1;
    }
    assert(workspaces@.take(i as int) =~= workspaces@);
    best
}

fn resolve_marked_workspace(workspaces: &Vec<WorkspaceFlags>, preferred: Option<u32>) -> (chosen:
    Option<u64>)
    ensures
        chosen == marked_workspace(workspaces@, preferred),
{
    proof {
        lemma_min_flags_index_bounds(workspaces@);
    }
    if let Some(id) = preferred {
        proof {
            lemma_first_index_bounds(workspaces@, flags_with_id(id), 0);
        }
        let mut i: usize = 0;
        while i < workspaces.len()
            invariant
                i <= workspaces@.len(),
                preferred == Some(id),
                first_index(workspaces@, flags_with_id(id)) == first_index_from(
                    workspaces@,
                    flags_with_id(id),
                    i as int,
                ),
            decreases workspaces.len() - i,
        {
            if workspaces[i].id == id {
                return Some(workspaces[i].entity);
            }
            i += 1;
        }
    }
    match min_flags_index_of(workspaces) {
        Some(k) => Some(workspaces[k].entity),
        None => None,
    }
}

/// Mirrors the active workspace selection (the workspace shown on the focused output, else on
/// the primary output, else on the first output showing one, else the smallest id) into the
/// workspaces' active flags and active-workspace markers; see [`marker_effects`].
/// `workspaces` carries each workspace's marker in `flagged`.
pub fn sync_active_workspace_marker_system(
    outputs: &Vec<WorkspaceOutput>,
    workspaces: &Vec<WorkspaceFlags>,
    focused_output: Option<u64>,
    primary_output: Option<u64>,
) -> (effects: Vec<WorkspaceEffect>)
    ensures
        effects_view(effects@) == marker_effects(
            workspaces@,
            marked_workspace(
                workspaces@,
                preferred_workspace(outputs@, focused_output, primary_output),
            ),
        ),
{
    let preferred = resolve_preferred_workspace_id(outputs, focused_output, primary_output);
    let chosen = resolve_marked_workspace(workspaces, preferred);
    let mut effects: Vec<WorkspaceEffect> = Vec::new();
    assert(effects_view(effects@) =~= marker_effects(workspaces@.take(0), chosen));
    let mut i: usize = 0;
    while i < workspaces.len()
        invariant
            i <= workspaces@.len(),
            effects_view(effects@) == marker_effects(workspaces@.take(i as int), chosen),
        decreases workspaces.len() - i,
    {
        proof {
            lemma_take_step(workspaces@, i as int);
        }
        let workspace = workspaces[i];
        let is_active = chosen == Some(workspace.entity);
        if workspace.active != is_active {
            let effect = WorkspaceEffect::SetActive { entity: workspace.entity, active: is_active };
            proof {
                lemma_push_effect(effects@, effect);
            }
            effects.push(effect);
        }
        if workspace.flagged != is_active {
            let effect = WorkspaceEffect::SetMarker { entity: workspace.entity, marked: is_active };
            proof {
                lemma_push_effect(effects@, effect);
            }
            effects.push(effect);
        }
        i += 1;
    }
    assert(workspaces@.take(i as int) =~= workspaces@);
    effects
}

/// Workspace ids shown on the outputs.
pub open spec fn shown_ids(outputs: Seq<WorkspaceOutput>) -> Set<u32>
    decreases outputs.len(),
{
    if outputs.len() == 0 {
        Set::empty()
    } else {
        let rest = shown_ids(outputs.drop_last());
        match outputs.last().current_workspace {
            Some(id) => rest.insert(id),
            None => rest,
        }
    }
}

/// Visible workspace ids: those shown on outputs, or, when no output shows one, the smallest id.
pub open spec fn visible_ids(outputs: Seq<WorkspaceOutput>, workspaces: Seq<WorkspaceFlags>) -> Set<u32> {
    let shown = shown_ids(outputs);
    if shown.is_empty() && min_flags_index(workspaces) is Some {
        shown.insert(workspaces[min_flags_index(workspaces)->0].id)
    } else {
        shown
    }
}

/// Per workspace, in order: re-enable a disabled visible workspace, disable an enabled hidden one.
pub open spec fn disabled_effects(workspaces: Seq<WorkspaceFlags>, visible: Set<u32>) -> Seq<
    WorkspaceEffectView,
>
    decreases workspaces.len(),
{
    if workspaces.len() == 0 {
        seq![]
    } else {
        let rest = disabled_effects(workspaces.drop_last(), visible);
        let workspace = workspaces.last();
        let shown = visible.contains(workspace.id);
        if shown == workspace.flagged {
            rest.push(WorkspaceEffectView::SetDisabled { entity: workspace.entity, disabled: !shown })
        } else {
            rest
        }
    }
}

/// Mirrors workspace visibility into the disabled state: visible workspaces are enabled, the
/// others disabled; see [`disabled_effects`]. `workspaces` carries each workspace's disabled
/// state in `flagged`.
pub fn sync_workspace_disabled_state_system(
    outputs: &Vec<WorkspaceOutput>,
    workspaces: &Vec<WorkspaceFlags>,
) -> (effects: Vec<WorkspaceEffect>)
    ensures
        effects_view(effects@) == disabled_effects(workspaces@, visible_ids(outputs@, workspaces@)),
{
    let mut shown: BTreeSet<u32> = BTreeSet::new();
    let mut any_shown = false;
    let mut i: usize = 0;
    while i < outputs.len()
        invariant
            i <= outputs@.len(),
            shown@ == shown_ids(outputs@.take(i as int)),
            any_shown ==> !shown@.is_empty(),
            !any_shown ==> shown@ =~= Set::<u32>::empty(),
        decreases outputs.len() - i,
    {
        proof {
            lemma_take_step(outputs@, i as int);
        }
        if let Some(id) = outputs[i].current_workspace {
            shown.insert(id);
            any_shown = true;
            assert(shown@.contains(id));
        }
        i += 1;
    }
    assert(outputs@.take(i as int) =~= outputs@);
    if !any_shown {
        proof {
            lemma_min_flags_index_bounds(workspaces@);
        }
        if let Some(k) = min_flags_index_of(workspaces) {
            shown.insert(workspaces[k].id);
        }
    }
    let ghost visible = visible_ids(outputs@, workspaces@);
    assert(shown@ =~= visible);
    let mut effects: Vec<WorkspaceEffect> = Vec::new();
    assert(effects_view(effects@) =~= disabled_effects(workspaces@.take(0), visible));
    let mut j: usize = 0;
    while j < workspaces.len()
        invariant
            j <= workspaces@.len(),
            shown@ == visible,
            effects_view(effects@) == disabled_effects(workspaces@.take(j as int), visible),
        decreases workspaces.len() - j,
    {
        proof {
            lemma_take_step(workspaces@, j as int);
        }
        let workspace = workspaces[j];
        let visible_now = shown.contains(&workspace.id);
        if visible_now == workspace.flagged {
            let effect = WorkspaceEffect::SetDisabled {
                entity: workspace.entity,
                disabled: !visible_now,
            };
            proof {
                lemma_push_effect(effects@, effect);
            }
            effects.push(effect);
        }
        j += 1;
    }
    assert(workspaces@.take(j as int) =~= workspaces@);
    effects
}

/// Remembered routes after recording every output that shows a workspace, in order.
pub open spec fn remembered_routes(remembered: RememberedView, outputs: Seq<WorkspaceOutput>) -> RememberedView
    decreases outputs.len(),
{
    if outputs.len() == 0 {
        remembered
    } else {
        let before = remembered_routes(remembered, outputs.drop_last());
        let output = outputs.last();
        match output.current_workspace {
            Some(id) => RememberedView {
                by_id: before.by_id.insert(output.output_id, id),
                names: before.names.insert(output.name@, output.output_id),
            },
            None => before,
        }
    }
}

/// Persists the current output-to-workspace mapping for later reconnect or re-enable flows.
pub fn remember_output_workspace_routes_system(
    outputs: &Vec<WorkspaceOutput>,
    remembered: &mut RememberedOutputWorkspaceState,
)
    ensures
        final(remembered)@ == remembered_routes(old(remembered)@, outputs@),
{
    let ghost start = remembered@;
    let mut i: usize = 0;
    while i < outputs.len()
        invariant
            i <= outputs@.len(),
            remembered@ == remembered_routes(start, outputs@.take(i as int)),
        decreases outputs.len() - i,
    {
        proof {
            lemma_take_step(outputs@, i as int);
        }
        if let Some(id) = outputs[i].current_workspace {
            remembered.remember(outputs[i].output_id, outputs[i].name.clone(), id);
        }
        i += 1;
    }
    assert(outputs@.take(i as int) =~= outputs@);
}

/// What the workspace systems watch for changes since their last run.
#[derive(Clone, Copy, Debug, PartialEq, Eq, Structural)]
pub struct WorkspaceChangeSignals {
    pub pending_controls: bool,
    pub workspace_count: usize,
    pub active_workspace_count: usize,
    pub workspaces_added: bool,
    pub output_routes_changed: bool,
    pub workspaces_removed: bool,
    pub outputs_removed: bool,
    pub output_routes_removed: bool,
    pub ingress_changed: bool,
    pub focused_output_changed: bool,
}

/// Whether the workspace systems must run: controls are pending, there is no workspace, not
/// exactly one workspace is active, or something they read changed.
pub fn workspace_reconciliation_needed(signals: &WorkspaceChangeSignals) -> (needed: bool)
    ensures
        needed == (signals.pending_controls || signals.workspace_count == 0
            || signals.active_workspace_count != 1 || signals.workspaces_added
            || signals.output_routes_changed || signals.workspaces_removed
            || signals.outputs_removed || signals.output_routes_removed
            || signals.ingress_changed || signals.focused_output_changed),
{
    if signals.pending_controls || signals.workspace_count == 0 {
        return true;
    }
    if signals.active_workspace_count != 1 {
        return true;
    }
    signals.workspaces_added || signals.output_routes_changed || signals.workspaces_removed
        || signals.outputs_removed || signals.output_routes_removed || signals.ingress_changed
        || signals.focused_output_changed
}

} // verus!

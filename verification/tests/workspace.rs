use std::collections::{BTreeMap, BTreeSet};

use nekoland_shell::workspace::{
    output_workspace_housekeeping_system, remember_output_workspace_routes_system,
    sync_active_workspace_marker_system, sync_workspace_disabled_state_system,
    workspace_command_system, workspace_reconciliation_needed, OutputNameRoute,
    RememberedOutputWorkspaceState, WorkspaceChangeSignals, WorkspaceCommandInput,
    WorkspaceControl, WorkspaceEffect, WorkspaceEntry, WorkspaceFlags, WorkspaceLookup,
    WorkspaceOutput, WorkspaceSelector, WorkspaceWindow,
};

/// A small world the workspace effects are applied to, as the compositor applies them.
struct World {
    workspaces: Vec<WorkspaceEntry>,
    outputs: Vec<WorkspaceOutput>,
    windows: Vec<WorkspaceWindow>,
    markers: BTreeSet<u64>,
    disabled: BTreeSet<u64>,
    next_entity: u64,
    focused_output: Option<u64>,
    primary_output: Option<u64>,
}

impl World {
    fn new() -> World {
        World {
            workspaces: Vec::new(),
            outputs: Vec::new(),
            windows: Vec::new(),
            markers: BTreeSet::new(),
            disabled: BTreeSet::new(),
            next_entity: 100,
            focused_output: None,
            primary_output: None,
        }
    }

    fn spawn_workspace(&mut self, id: u32, active: bool) -> u64 {
        let entity = self.next_entity;
        self.next_entity += 1;
        self.workspaces.push(WorkspaceEntry { entity, id, name: id.to_string(), active });
        entity
    }

    fn spawn_output(&mut self, output_id: u64, name: &str, current_workspace: Option<u32>) -> u64 {
        let entity = self.next_entity;
        self.next_entity += 1;
        self.outputs.push(WorkspaceOutput { entity, output_id, name: name.to_owned(), current_workspace });
        entity
    }

    fn apply(&mut self, effects: Vec<WorkspaceEffect>) {
        for effect in effects {
            match effect {
                WorkspaceEffect::Spawn { entity, id, name, active } => {
                    self.workspaces.push(WorkspaceEntry { entity, id, name, active });
                    self.next_entity = self.next_entity.max(entity + 1);
                }
                WorkspaceEffect::ShowWorkspace { output, workspace_id } => {
                    for candidate in &mut self.outputs {
                        if candidate.entity == output {
                            candidate.current_workspace = Some(workspace_id);
                        }
                    }
                }
                WorkspaceEffect::SetActive { entity, active } => {
                    for workspace in &mut self.workspaces {
                        if workspace.entity == entity {
                            workspace.active = active;
                        }
                    }
                }
                WorkspaceEffect::Reparent { window, parent } => {
                    for candidate in &mut self.windows {
                        if candidate.window == window {
                            candidate.parent = Some(parent);
                        }
                    }
                }
                WorkspaceEffect::Despawn { entity } => {
                    self.workspaces.retain(|workspace| workspace.entity != entity);
                }
                WorkspaceEffect::SetMarker { entity, marked } => {
                    if marked {
                        self.markers.insert(entity);
                    } else {
                        self.markers.remove(&entity);
                    }
                }
                WorkspaceEffect::SetDisabled { entity, disabled } => {
                    if disabled {
                        self.disabled.insert(entity);
                    } else {
                        self.disabled.remove(&entity);
                    }
                }
            }
        }
    }

    fn command(&mut self, controls: Vec<WorkspaceControl>) {
        let input = WorkspaceCommandInput {
            workspaces: self.workspaces.clone(),
            outputs: self.outputs.clone(),
            windows: self.windows.clone(),
            focused_output: self.focused_output,
            primary_output: self.primary_output,
        };
        let effects = workspace_command_system(&input, &controls, self.next_entity);
        self.apply(effects);
    }

    fn housekeeping(&mut self, remembered: &mut RememberedOutputWorkspaceState) {
        let effects = output_workspace_housekeeping_system(&self.outputs, &self.workspaces, remembered, self.next_entity);
        self.apply(effects);
    }

    fn flags(&self, marker: bool) -> Vec<WorkspaceFlags> {
        self.workspaces
            .iter()
            .map(|workspace| WorkspaceFlags {
                entity: workspace.entity,
                id: workspace.id,
                active: workspace.active,
                flagged: if marker {
                    self.markers.contains(&workspace.entity)
                } else {
                    self.disabled.contains(&workspace.entity)
                },
            })
            .collect()
    }

    fn assignments(&self) -> BTreeMap<String, u32> {
        self.outputs
            .iter()
            .filter_map(|output| output.current_workspace.map(|id| (output.name.clone(), id)))
            .collect()
    }
}

#[test]
fn destroying_workspace_reparents_windows_to_fallback_workspace() {
    let mut world = World::new();
    let fallback = world.spawn_workspace(1, true);
    let target = world.spawn_workspace(2, false);
    world.windows.push(WorkspaceWindow { window: 55, parent: Some(target) });
    world.command(vec![WorkspaceControl::Destroy { target: WorkspaceSelector::Id(2) }]);
    assert!(
        world.workspaces.iter().all(|workspace| workspace.entity != target),
        "destroyed workspace entity should be removed",
    );
    assert_eq!(world.windows[0].parent, Some(fallback), "window should reparent to the fallback workspace entity");
}

#[test]
fn sync_workspace_disabled_state_recursively_disables_inactive_workspaces() {
    let mut world = World::new();
    let active = world.spawn_workspace(1, true);
    let inactive = world.spawn_workspace(2, false);
    let effects = sync_workspace_disabled_state_system(&world.outputs, &world.flags(false));
    world.apply(effects);
    assert!(world.disabled.contains(&inactive), "inactive workspace root should be disabled");
    assert!(!world.disabled.contains(&active), "active workspace should remain enabled");
}

#[test]
fn sync_active_workspace_marker_tracks_current_active_workspace() {
    let mut world = World::new();
    let active = world.spawn_workspace(1, true);
    let inactive = world.spawn_workspace(2, false);
    let effects = sync_active_workspace_marker_system(&world.outputs, &world.flags(true), None, None);
    world.apply(effects);
    assert!(world.markers.contains(&active));
    assert!(!world.markers.contains(&inactive));
}

#[test]
fn sync_active_workspace_marker_clears_stale_active_flag_on_disabled_workspace() {
    let mut world = World::new();
    let stale = world.spawn_workspace(1, true);
    world.markers.insert(stale);
    world.disabled.insert(stale);
    let preferred = world.spawn_workspace(2, false);
    world.spawn_output(7, "Virtual-1", Some(2));
    let effects = sync_active_workspace_marker_system(&world.outputs, &world.flags(true), None, None);
    world.apply(effects);
    let stale_state = world.workspaces.iter().find(|workspace| workspace.entity == stale).expect("stale workspace should remain present");
    assert!(!stale_state.active);
    assert!(!world.markers.contains(&stale));
    let preferred_state = world.workspaces.iter().find(|workspace| workspace.entity == preferred).expect("preferred workspace should remain present");
    assert!(preferred_state.active);
    assert!(world.markers.contains(&preferred));
}

#[test]
fn workspace_reconciliation_condition_stops_ticking_when_state_is_stable() {
    let stable = WorkspaceChangeSignals {
        pending_controls: false,
        workspace_count: 1,
        active_workspace_count: 1,
        workspaces_added: false,
        output_routes_changed: false,
        workspaces_removed: false,
        outputs_removed: false,
        output_routes_removed: false,
        ingress_changed: false,
        focused_output_changed: false,
    };
    let first_tick = WorkspaceChangeSignals { workspaces_added: true, output_routes_changed: true, ..stable };
    let focus_moved = WorkspaceChangeSignals { focused_output_changed: true, ..stable };
    let mut audit = 0;
    for signals in [first_tick, stable] {
        if workspace_reconciliation_needed(&signals) {
            audit += 1;
        }
    }
    assert_eq!(audit, 1, "stable workspace routing should stop re-triggering the condition");
    for signals in [focus_moved, stable] {
        if workspace_reconciliation_needed(&signals) {
            audit += 1;
        }
    }
    assert_eq!(audit, 2, "focused-output changes should re-trigger reconciliation once");
    assert!(workspace_reconciliation_needed(&WorkspaceChangeSignals { workspace_count: 0, ..stable }));
    assert!(workspace_reconciliation_needed(&WorkspaceChangeSignals { active_workspace_count: 2, ..stable }));
}

#[test]
fn output_workspace_housekeeping_assigns_unique_workspaces_to_outputs() {
    let mut world = World::new();
    world.spawn_workspace(1, true);
    world.spawn_workspace(2, false);
    world.spawn_output(1, "Virtual-1", None);
    world.spawn_output(2, "HDMI-A-1", None);
    let mut remembered = RememberedOutputWorkspaceState::default();
    world.housekeeping(&mut remembered);
    let assignments = world.assignments();
    assert_eq!(assignments.len(), 2);
    assert_ne!(assignments["Virtual-1"], assignments["HDMI-A-1"]);
}

fn switch_to_three(primary_output: Option<u64>, focused_output: Option<u64>) -> BTreeMap<String, u32> {
    let mut world = World::new();
    world.spawn_workspace(1, true);
    world.spawn_workspace(2, false);
    world.spawn_output(1, "Virtual-1", Some(1));
    world.spawn_output(2, "HDMI-A-1", Some(2));
    world.focused_output = focused_output;
    world.primary_output = primary_output;
    let mut remembered = RememberedOutputWorkspaceState::default();
    world.command(vec![WorkspaceControl::SwitchOrCreate { target: WorkspaceLookup::Name("3".to_owned()) }]);
    world.housekeeping(&mut remembered);
    remember_output_workspace_routes_system(&world.outputs, &mut remembered);
    world.assignments()
}

#[test]
fn workspace_switch_targets_focused_output_workspace() {
    let assignments = switch_to_three(None, Some(2));
    assert_eq!(assignments["Virtual-1"], 1);
    assert_eq!(assignments["HDMI-A-1"], 3);
}

#[test]
fn workspace_switch_prefers_wayland_ingress_primary_output_over_stale_compat_state() {
    let assignments = switch_to_three(Some(2), None);
    assert_eq!(assignments["Virtual-1"], 1);
    assert_eq!(assignments["HDMI-A-1"], 3);
}

#[test]
fn output_workspace_housekeeping_restores_remembered_workspace_for_reconnected_output() {
    let mut world = World::new();
    world.spawn_workspace(1, true);
    world.spawn_workspace(2, false);
    world.spawn_output(1, "Virtual-1", None);
    let mut remembered = RememberedOutputWorkspaceState::default();
    remembered.ids_by_name.push(OutputNameRoute { name: "Virtual-1".to_owned(), output_id: 1 });
    remembered.by_id.insert(1, 2);
    world.housekeeping(&mut remembered);
    assert_eq!(world.assignments()["Virtual-1"], 2);
}

#[test]
fn remembered_routes_are_looked_up_by_output_name() {
    let mut remembered = RememberedOutputWorkspaceState::default();
    assert_eq!(remembered.workspace_for_output_name("Virtual-1"), None);
    remembered.remember(9, "Virtual-1".to_owned(), 4);
    assert_eq!(remembered.workspace_for_output_name("Virtual-1"), Some(4));
    assert_eq!(remembered.workspace_for_output_name("HDMI-A-1"), None);
}

#[test]
fn creating_an_existing_workspace_changes_nothing_and_the_last_workspace_survives() {
    let mut world = World::new();
    let only = world.spawn_workspace(1, true);
    world.command(vec![WorkspaceControl::Create { target: WorkspaceLookup::Id(1) }]);
    assert_eq!(world.workspaces.len(), 1);
    world.command(vec![WorkspaceControl::Destroy { target: WorkspaceSelector::Active }]);
    assert_eq!(world.workspaces.len(), 1);
    assert_eq!(world.workspaces[0].entity, only);
}

use nekoland_shell::model::SurfaceGeometry;
use nekoland_shell::popup::{
    popup_descendants, popup_management_system, popup_projection_system, IndexedSurface, ParentSurface, PopupEffect,
    PopupEvent, PopupGrab, PopupPlacement, PopupRecord, PopupRequest, PopupSurface,
};

/// Windows and popups, with the popup effects applied as the compositor applies them.
struct World {
    windows: Vec<ParentSurface>,
    popups: Vec<PopupRecord>,
    next_entity: u64,
}

impl World {
    fn new() -> World {
        World { windows: Vec::new(), popups: Vec::new(), next_entity: 1 }
    }

    fn window(&mut self, surface_id: u64, geometry: SurfaceGeometry) -> u64 {
        let entity = self.next_entity;
        self.next_entity += 1;
        self.windows.push(ParentSurface { entity, surface_id, geometry });
        entity
    }

    fn popup(&mut self, surface_id: u64, geometry: SurfaceGeometry, parent: u64) -> u64 {
        let entity = self.next_entity;
        self.next_entity += 1;
        self.popups.push(PopupRecord {
            entity,
            surface_id,
            geometry,
            attached: true,
            content_version: 0,
            surface: PopupSurface { x: 0, y: 0, width: 0, height: 0 },
            grab: PopupGrab { active: false, seat_id: 0, serial: None },
            parent,
        });
        entity
    }

    fn index(&self) -> Vec<IndexedSurface> {
        self.windows
            .iter()
            .map(|window| IndexedSurface { surface_id: window.surface_id, entity: window.entity })
            .chain(self.popups.iter().map(|popup| IndexedSurface { surface_id: popup.surface_id, entity: popup.entity }))
            .collect()
    }

    fn tick(&mut self, requests: Vec<PopupRequest>) -> Vec<PopupRequest> {
        let index = self.index();
        let (effects, deferred) = popup_management_system(&index, &self.windows, &mut self.popups, &requests, self.next_entity);
        for effect in effects {
            match effect {
                PopupEffect::Spawn(spawn) => {
                    self.popups.push(PopupRecord {
                        entity: spawn.entity,
                        surface_id: spawn.surface_id,
                        geometry: spawn.geometry,
                        attached: false,
                        content_version: 0,
                        surface: spawn.surface,
                        grab: PopupGrab { active: false, seat_id: 0, serial: None },
                        parent: spawn.parent,
                    });
                    self.next_entity = self.next_entity.max(spawn.entity + 1);
                }
                PopupEffect::Despawn { entity } => self.popups.retain(|popup| popup.entity != entity),
            }
        }
        popup_projection_system(&self.windows, &mut self.popups);
        deferred
    }

    fn popup_by_surface(&self, surface_id: u64) -> Option<&PopupRecord> {
        self.popups.iter().find(|popup| popup.surface_id == surface_id)
    }
}

fn created(surface_id: u64, parent_surface_id: u64, x: i32, y: i32, width: i32, height: i32) -> PopupRequest {
    PopupRequest {
        surface_id,
        event: PopupEvent::Created {
            parent_surface_id,
            placement: PopupPlacement { x, y, width, height, reposition_token: Some(7) },
        },
    }
}

#[test]
fn popup_creation_inserts_child_of_parent_when_parent_exists() {
    let mut world = World::new();
    let parent = world.window(42, SurfaceGeometry { x: 20, y: 30, width: 640, height: 480 });
    let deferred = world.tick(vec![created(100, 42, 10, 12, 200, 120)]);
    assert!(deferred.is_empty());
    let popup = world.popup_by_surface(100).expect("popup entity should be spawned");
    assert_eq!(popup.parent, parent);
}

#[test]
fn popup_projection_tracks_parent_geometry_changes() {
    let mut world = World::new();
    world.window(42, SurfaceGeometry { x: 20, y: 30, width: 640, height: 480 });
    world.tick(vec![created(100, 42, 10, 12, 200, 120)]);
    world.windows[0].geometry.x = 120;
    world.windows[0].geometry.y = 230;
    world.tick(Vec::new());
    let geometry = world.popup_by_surface(100).expect("popup geometry should exist").geometry;
    assert_eq!(geometry.x, 130);
    assert_eq!(geometry.y, 242);
    assert_eq!(geometry.width, 200);
    assert_eq!(geometry.height, 120);
}

#[test]
fn popup_creation_accepts_popup_parent_surfaces() {
    let mut world = World::new();
    let window = world.window(42, SurfaceGeometry { x: 20, y: 30, width: 640, height: 480 });
    let popup_parent = world.popup(100, SurfaceGeometry { x: 120, y: 150, width: 240, height: 120 }, window);
    world.tick(vec![created(200, 100, 10, 12, 160, 80)]);
    let child = world.popup_by_surface(200).expect("nested popup entity should be spawned");
    assert_eq!(child.parent, popup_parent);
}

#[test]
fn popup_destroy_is_idempotent_when_duplicate_requests_arrive() {
    let mut world = World::new();
    let parent = world.window(42, SurfaceGeometry { x: 20, y: 30, width: 640, height: 480 });
    let popup_parent = world.popup(100, SurfaceGeometry { x: 40, y: 50, width: 160, height: 90 }, parent);
    world.popup(101, SurfaceGeometry { x: 60, y: 70, width: 120, height: 60 }, popup_parent);
    let closed = PopupRequest { surface_id: 100, event: PopupEvent::Closed };
    let deferred = world.tick(vec![closed, closed]);
    assert!(deferred.is_empty());
    assert_eq!(world.popups.len(), 0);
}

#[test]
fn popups_of_unknown_parents_wait() {
    let mut world = World::new();
    let deferred = world.tick(vec![created(300, 999, 0, 0, 10, 10)]);
    assert_eq!(deferred, vec![created(300, 999, 0, 0, 10, 10)]);
    assert!(world.popups.is_empty());
}

#[test]
fn nested_popups_follow_their_parents_in_one_pass() {
    let windows = vec![ParentSurface { entity: 1, surface_id: 42, geometry: SurfaceGeometry { x: 5, y: 6, width: 100, height: 100 } }];
    let record = |entity: u64, parent: u64, x: i32, y: i32| PopupRecord {
        entity,
        surface_id: entity + 100,
        geometry: SurfaceGeometry { x: 0, y: 0, width: 0, height: 0 },
        attached: true,
        content_version: 0,
        surface: PopupSurface { x, y, width: 0, height: 20 },
        grab: PopupGrab { active: false, seat_id: 0, serial: None },
        parent,
    };
    let mut popups = vec![record(3, 2, 1, 1), record(2, 1, 10, 10), record(4, 77, 1, 1)];
    popup_projection_system(&windows, &mut popups);
    assert_eq!(popups[1].geometry, SurfaceGeometry { x: 15, y: 16, width: 1, height: 20 });
    assert_eq!(popups[0].geometry, SurfaceGeometry { x: 16, y: 17, width: 1, height: 20 });
    assert_eq!(popups[2].geometry, SurfaceGeometry { x: 0, y: 0, width: 0, height: 0 });
}

#[test]
fn closing_a_popup_despawns_its_descendants_before_it() {
    let mut world = World::new();
    let parent = world.window(42, SurfaceGeometry { x: 20, y: 30, width: 640, height: 480 });
    let outer = world.popup(100, SurfaceGeometry { x: 40, y: 50, width: 160, height: 90 }, parent);
    let middle = world.popup(101, SurfaceGeometry { x: 60, y: 70, width: 120, height: 60 }, outer);
    let sibling = world.popup(103, SurfaceGeometry { x: 60, y: 70, width: 20, height: 20 }, outer);
    let inner = world.popup(102, SurfaceGeometry { x: 70, y: 80, width: 50, height: 40 }, middle);
    let other = world.popup(104, SurfaceGeometry { x: 0, y: 0, width: 10, height: 10 }, parent);
    let index = world.index();
    let (effects, deferred) = popup_management_system(
        &index,
        &world.windows,
        &mut world.popups,
        &vec![PopupRequest { surface_id: 100, event: PopupEvent::Closed }],
        world.next_entity,
    );
    assert!(deferred.is_empty());
    assert_eq!(
        effects,
        vec![
            PopupEffect::Despawn { entity: inner },
            PopupEffect::Despawn { entity: middle },
            PopupEffect::Despawn { entity: sibling },
            PopupEffect::Despawn { entity: outer },
        ]
    );
    let links = vec![(outer, parent), (middle, outer), (inner, middle), (other, parent)];
    assert_eq!(popup_descendants(&links, parent), vec![inner, middle, outer, other, parent]);
}

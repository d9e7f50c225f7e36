use nekoland_shell::layer::{
    layer_arrangement_system, work_area_system, LayerAnchor, LayerMargins, LayerOutput,
    LayerRecord, LayerShellSurface,
};
use nekoland_shell::layer_lifecycle::{
    layer_lifecycle_system, sync_layer_output_relationships_system, LayerEntity, LayerLevel,
    LayerLifecycleAction, LayerLifecycleRequest, LayerSize, LayerSurfaceCreateSpec, NamedOutput,
};
use nekoland_shell::model::{SurfaceGeometry, WorkArea};

const PRIMARY: u64 = 1;
const SECONDARY: u64 = 2;

fn top_bar() -> LayerAnchor {
    LayerAnchor { top: true, bottom: false, left: true, right: true }
}

fn outputs() -> Vec<LayerOutput> {
    vec![
        LayerOutput { entity: PRIMARY, id: 101, width: 1280, height: 720 },
        LayerOutput { entity: SECONDARY, id: 102, width: 800, height: 600 },
    ]
}

fn layer(
    desired: (u32, u32),
    exclusive_zone: i32,
    name: Option<&str>,
    geometry: SurfaceGeometry,
    bound: Option<u64>,
) -> LayerRecord {
    LayerRecord {
        surface: LayerShellSurface {
            desired_width: desired.0,
            desired_height: desired.1,
            exclusive_zone,
            margins: LayerMargins::default(),
        },
        desired_output_name: name.map(|name| name.to_owned()),
        anchor: top_bar(),
        geometry,
        buffer_attached: true,
        layer_output: bound,
    }
}

fn panel_spec(output: Option<&str>) -> LayerSurfaceCreateSpec {
    LayerSurfaceCreateSpec {
        namespace: "panel".to_owned(),
        output_name: output.map(|name| name.to_owned()),
        layer: LayerLevel::Top,
        anchor: top_bar(),
        desired_width: 1280,
        desired_height: 32,
        exclusive_zone: 32,
        margins: LayerMargins::default(),
    }
}

#[test]
fn layer_creation_inserts_output_relationship_when_output_exists() {
    let named = vec![NamedOutput { entity: PRIMARY, name: "Virtual-1".to_owned() }];
    let mut layers: Vec<LayerEntity> = Vec::new();
    let mut pending = vec![LayerLifecycleRequest {
        surface_id: 91,
        action: LayerLifecycleAction::Created { spec: panel_spec(Some("Virtual-1")) },
    }];
    layer_lifecycle_system(&mut layers, &mut pending);
    sync_layer_output_relationships_system(&named, &mut layers);
    assert!(pending.is_empty());
    assert_eq!(layers.len(), 1);
    assert_eq!(layers[0].surface_id, 91);
    assert_eq!(layers[0].layer_output, Some(PRIMARY), "layer should point at the resolved output entity");
}

#[test]
fn layer_arrangement_uses_target_output_dimensions() {
    let layers = vec![layer(
        (0, 32),
        0,
        Some("HDMI-A-1"),
        SurfaceGeometry { x: 0, y: 0, width: 1, height: 32 },
        Some(SECONDARY),
    )];
    let arranged = layer_arrangement_system(None, &outputs(), &layers);
    let Some(geometry) = arranged[0] else {
        panic!("layer should be arranged");
    };
    assert_eq!(
        geometry.width, 800,
        "stretch layer should size itself against the targeted output, not the primary output"
    );
}

#[test]
fn work_area_ignores_layers_targeting_non_primary_outputs() {
    let layers = vec![layer(
        (800, 32),
        32,
        Some("HDMI-A-1"),
        SurfaceGeometry { x: 0, y: 0, width: 800, height: 32 },
        Some(SECONDARY),
    )];
    let Some(areas) = work_area_system(None, &outputs(), &layers) else {
        panic!("work areas exist with outputs");
    };
    assert_eq!(
        areas.primary,
        WorkArea { x: 0, y: 0, width: 1280, height: 720 },
        "layers targeting a non-primary output should not shrink the global work area"
    );
}

#[test]
fn detached_named_layer_does_not_fall_back_to_primary_output() {
    let only_primary = vec![LayerOutput { entity: PRIMARY, id: 101, width: 1280, height: 720 }];
    let layers = vec![layer(
        (0, 32),
        0,
        Some("Missing-1"),
        SurfaceGeometry { x: 17, y: 19, width: 123, height: 32 },
        None,
    )];
    let arranged = layer_arrangement_system(None, &only_primary, &layers);
    assert_eq!(
        arranged[0], None,
        "a layer with a named but unresolved output should stay detached instead of falling back to the primary output"
    );
}

#[test]
fn detached_named_layer_does_not_shrink_work_area() {
    let only_primary = vec![LayerOutput { entity: PRIMARY, id: 101, width: 1280, height: 720 }];
    let layers = vec![layer(
        (1280, 32),
        32,
        Some("Missing-1"),
        SurfaceGeometry { x: 0, y: 0, width: 1280, height: 32 },
        None,
    )];
    let Some(areas) = work_area_system(None, &only_primary, &layers) else {
        panic!("work areas exist with outputs");
    };
    assert_eq!(
        areas.primary,
        WorkArea { x: 0, y: 0, width: 1280, height: 720 },
        "a detached layer should not reserve space on the primary output"
    );
}

#[test]
fn explicit_primary_output_state_overrides_largest_output_fallback() {
    let mut layers = vec![layer((0, 32), 32, None, SurfaceGeometry { x: 0, y: 0, width: 1, height: 32 }, None)];
    let arranged = layer_arrangement_system(Some(102), &outputs(), &layers);
    let Some(geometry) = arranged[0] else {
        panic!("unbound layer should be arranged against the selected primary output");
    };
    assert_eq!(geometry.width, 800);
    layers[0].geometry = geometry;
    let Some(areas) = work_area_system(Some(102), &outputs(), &layers) else {
        panic!("work areas exist with outputs");
    };
    assert_eq!(areas.primary, WorkArea { x: 0, y: 32, width: 800, height: 568 });
}

#[test]
fn explicit_layer_height_overrides_oversized_committed_geometry() {
    let only_primary = vec![LayerOutput { entity: PRIMARY, id: 101, width: 1280, height: 720 }];
    let layers = vec![layer((0, 32), 0, None, SurfaceGeometry { x: 0, y: 0, width: 1280, height: 720 }, None)];
    let arranged = layer_arrangement_system(None, &only_primary, &layers);
    let Some(geometry) = arranged[0] else {
        panic!("layer should keep geometry after arrangement");
    };
    assert_eq!(geometry.width, 1280);
    assert_eq!(geometry.height, 32, "explicit layer height should win over a stale oversized committed size");
}

#[test]
fn sync_layer_output_relationships_insert_when_output_appears_late() {
    let mut layers: Vec<LayerEntity> = Vec::new();
    let mut pending = vec![LayerLifecycleRequest {
        surface_id: 77,
        action: LayerLifecycleAction::Created { spec: panel_spec(Some("Virtual-1")) },
    }];
    layer_lifecycle_system(&mut layers, &mut pending);
    sync_layer_output_relationships_system(&Vec::new(), &mut layers);
    assert_eq!(layers[0].layer_output, None, "without a matching output entity the relationship should stay absent");
    let named = vec![NamedOutput { entity: 5, name: "Virtual-1".to_owned() }];
    sync_layer_output_relationships_system(&named, &mut layers);
    assert_eq!(layers[0].layer_output, Some(5));
}

#[test]
fn sync_layer_output_relationships_remove_when_output_disappears() {
    let named = vec![NamedOutput { entity: 5, name: "Virtual-1".to_owned() }];
    let mut layers: Vec<LayerEntity> = Vec::new();
    let mut pending = vec![LayerLifecycleRequest {
        surface_id: 77,
        action: LayerLifecycleAction::Created { spec: panel_spec(Some("Virtual-1")) },
    }];
    layer_lifecycle_system(&mut layers, &mut pending);
    sync_layer_output_relationships_system(&named, &mut layers);
    assert_eq!(layers[0].layer_output, Some(5));
    sync_layer_output_relationships_system(&Vec::new(), &mut layers);
    assert_eq!(layers[0].layer_output, None, "relationship should be removed when the named output no longer exists");
}

#[test]
fn commits_for_unknown_layers_wait_and_duplicates_are_deferred() {
    let commit = LayerLifecycleRequest {
        surface_id: 9,
        action: LayerLifecycleAction::Committed {
            size: Some(LayerSize { width: 0, height: 40 }),
            anchor: top_bar(),
            desired_width: 0,
            desired_height: 40,
            exclusive_zone: 40,
            margins: LayerMargins::default(),
        },
    };
    let create = LayerLifecycleRequest {
        surface_id: 9,
        action: LayerLifecycleAction::Created { spec: panel_spec(None) },
    };
    let mut layers: Vec<LayerEntity> = Vec::new();
    let mut pending = vec![create.clone(), commit.clone(), create.clone()];
    layer_lifecycle_system(&mut layers, &mut pending);
    assert_eq!(layers.len(), 1);
    assert_eq!(pending, vec![commit.clone(), create.clone()]);

    let mut next = vec![commit.clone()];
    layer_lifecycle_system(&mut layers, &mut next);
    assert!(next.is_empty());
    assert!(layers[0].buffer_attached);
    assert_eq!((layers[0].geometry.width, layers[0].geometry.height), (1, 40));
    assert_eq!(layers[0].surface.exclusive_zone, 40);
    assert_eq!(layers[0].content_version, 1);

    let mut destroy = vec![LayerLifecycleRequest { surface_id: 9, action: LayerLifecycleAction::Destroyed }];
    layer_lifecycle_system(&mut layers, &mut destroy);
    assert!(layers.is_empty());
    assert!(destroy.is_empty());
}

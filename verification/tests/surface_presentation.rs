use nekoland_shell::model::{SurfaceGeometry, WindowMode};
use nekoland_shell::surface_presentation::{
    surface_presentation_snapshot_system, SnapshotLayer, SnapshotOutput, SnapshotPopup,
    SnapshotWindow, SurfacePresentationRole,
};
use nekoland_shell::window_policy::WindowRole;

fn outputs() -> Vec<SnapshotOutput> {
    vec![SnapshotOutput { entity: 1, id: 1, name: "Virtual-1".to_owned() }]
}

fn window() -> SnapshotWindow {
    SnapshotWindow {
        entity: 10,
        surface_id: 10,
        role: WindowRole::Managed,
        mode: WindowMode::Normal,
        background_output: None,
        viewport_visible: true,
        viewport_output: Some(1),
        geometry: SurfaceGeometry { x: 20, y: 30, width: 320, height: 180 },
        x11_helper: false,
    }
}

fn popup(entity: u64, surface_id: u64, parent: u64, attached: bool) -> SnapshotPopup {
    SnapshotPopup { entity, surface_id, parent, geometry: SurfaceGeometry { x: 40, y: 50, width: 160, height: 90 }, attached }
}

#[test]
fn nested_popups_inherit_visibility_from_popup_parents() {
    let popups = vec![popup(21, 12, 20, true), popup(20, 11, 10, true)];
    let snapshot = surface_presentation_snapshot_system(&outputs(), None, &vec![window()], &popups, &Vec::new());
    assert!(snapshot[&11].visible);
    assert!(snapshot[&12].visible);
    assert_eq!(snapshot[&12].target_output, Some(1));
    assert_eq!(snapshot[&12].role, SurfacePresentationRole::Popup);
}

#[test]
fn detached_popups_and_orphans_are_hidden() {
    let popups = vec![popup(20, 11, 10, false), popup(21, 12, 20, true), popup(22, 13, 99, true)];
    let snapshot = surface_presentation_snapshot_system(&outputs(), None, &vec![window()], &popups, &Vec::new());
    assert!(!snapshot[&11].visible);
    assert!(!snapshot[&12].visible);
    assert_eq!(snapshot[&12].target_output, Some(1));
    assert!(!snapshot[&13].visible);
    assert_eq!(snapshot[&13].target_output, None);
}

#[test]
fn windows_layers_and_backgrounds_get_their_outputs() {
    let mut hidden = window();
    hidden.surface_id = 14;
    hidden.entity = 14;
    hidden.mode = WindowMode::Hidden;
    let mut background = window();
    background.surface_id = 15;
    background.entity = 15;
    background.role = WindowRole::OutputBackground;
    background.background_output = Some(1);
    background.viewport_visible = false;
    let layers = vec![
        SnapshotLayer { surface_id: 30, geometry: SurfaceGeometry { x: 0, y: 0, width: 1280, height: 32 }, attached: true, layer_output: None, desired_output_name: None },
        SnapshotLayer { surface_id: 31, geometry: SurfaceGeometry { x: 0, y: 0, width: 1, height: 1 }, attached: true, layer_output: None, desired_output_name: Some("Missing-1".to_owned()) },
    ];
    let snapshot = surface_presentation_snapshot_system(&outputs(), Some(7), &vec![window(), hidden, background], &Vec::new(), &layers);
    assert!(snapshot[&10].visible && snapshot[&10].input_enabled);
    assert!(!snapshot[&14].visible);
    assert!(snapshot[&15].visible);
    assert_eq!(snapshot[&15].role, SurfacePresentationRole::OutputBackground);
    assert!(!snapshot[&15].input_enabled);
    assert!(!snapshot[&30].visible, "the session's primary output is not live");
    let fallback = surface_presentation_snapshot_system(&outputs(), None, &Vec::new(), &Vec::new(), &layers);
    assert!(fallback[&30].visible);
    assert_eq!(fallback[&30].target_output, Some(1));
    assert!(fallback[&31].visible, "an unknown name falls back to the primary output");
}

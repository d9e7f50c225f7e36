use nekoland_shell::model::WindowLayout;
use nekoland_shell::stacking::{
    server_decoration_system, stacking_layout_system, BorderTheme, BorderWidths, StackedWindow,
};
use nekoland_shell::window_policy::WindowRole;

const UNASSIGNED_WORKSPACE_STACK_ID: u32 = 0;

#[test]
fn stacking_preserves_workspace_bucket_for_disabled_workspace_windows() {
    let windows = vec![
        StackedWindow { surface_id: 11, role: WindowRole::Managed, workspace: Some(2) },
        StackedWindow { surface_id: 22, role: WindowRole::Managed, workspace: Some(2) },
    ];
    let known = stacking_layout_system(&windows, UNASSIGNED_WORKSPACE_STACK_ID);
    assert_eq!(known, vec![(11, 2), (22, 2)]);
    assert!(
        known.iter().all(|(_, bucket)| *bucket != UNASSIGNED_WORKSPACE_STACK_ID),
        "disabled workspace windows should not be remapped into the unassigned stack"
    );
}

#[test]
fn backgrounds_are_not_stacked_and_loose_windows_use_the_unassigned_stack() {
    let windows = vec![
        StackedWindow { surface_id: 1, role: WindowRole::OutputBackground, workspace: Some(1) },
        StackedWindow { surface_id: 2, role: WindowRole::Managed, workspace: None },
    ];
    assert_eq!(stacking_layout_system(&windows, 99), vec![(2, 99)]);
}

#[test]
fn decorations_follow_the_configured_colour_and_layout_width() {
    let mut borders = vec![
        (WindowLayout::Tiled, BorderTheme { color: "#000000".to_owned(), width: 0 }),
        (WindowLayout::Floating, BorderTheme { color: "#000000".to_owned(), width: 0 }),
    ];
    server_decoration_system(&"#ff8800".to_owned(), BorderWidths { tiled: 2, floating: 3 }, &mut borders);
    assert_eq!(borders[0].1, BorderTheme { color: "#ff8800".to_owned(), width: 2 });
    assert_eq!(borders[1].1, BorderTheme { color: "#ff8800".to_owned(), width: 3 });
}

use nekoland_shell::commands;
use nekoland_shell::shortcuts::{ShortcutRegistry, ShortcutSpec, ShortcutTrigger};
use nekoland_shell::window_switcher;

#[test]
fn duplicate_shortcut_ids_are_refused() {
    let mut registry = ShortcutRegistry::new();
    let quit = ShortcutSpec::new("system.quit", "system", "Quit", "Super+Shift+Q", ShortcutTrigger::Press);
    assert!(registry.register(quit.clone()).is_ok());
    let again = registry.register(ShortcutSpec::new("system.quit", "other", "Again", "Super+Q", ShortcutTrigger::Hold));
    assert_eq!(again.map_err(|duplicate| duplicate.id), Err("system.quit".to_owned()));
    assert_eq!(registry.len(), 1);
    assert_eq!(registry.default_binding("system.quit"), Some("Super+Shift+Q".to_owned()));
    assert_eq!(registry.default_binding("missing"), None);
}

#[test]
fn subsystems_register_their_shortcuts_side_by_side() {
    let mut registry = ShortcutRegistry::new();
    commands::register_shortcuts(&mut registry);
    window_switcher::register_shortcuts(&mut registry);
    nekoland_shell::tiling::register_shortcuts(&mut registry);
    assert_eq!(registry.len(), 1 + 3 + 16);
    assert!(registry.contains("system.quit"));
    assert_eq!(registry.default_binding("window_switcher.hold"), Some("Alt".to_owned()));
    assert_eq!(registry.default_binding("window_switcher.cycle_prev"), Some("Alt+Shift+Tab".to_owned()));
    assert_eq!(registry.default_binding("system.quit"), Some("Super+Shift+Q".to_owned()));
}

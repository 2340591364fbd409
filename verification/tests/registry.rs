use galaxy::{action_for_id, dispatch_lookup, Action};
use galaxy::shortcuts::{
    evaluate_registration, normalize_shortcut, registration_plan, translate_key_symbols,
    RegistrationOutcome, RegistryError, ShortcutConfig, ShortcutManager, ShortcutsConfig,
    UpdateStep,
};

fn binding(id: &str, name: &str, combo: &str) -> (String, ShortcutConfig) {
    (
        id.to_string(),
        ShortcutConfig { name: name.to_string(), default_shortcut: combo.to_string() },
    )
}

#[test]
fn test_default_binding_set() {
    let config = ShortcutsConfig::default();
    let all = config.get_all_shortcuts();
    assert_eq!(all.len(), 4);
    assert_eq!(all[0].0, "moveMonitorLeft");
    assert_eq!(all[0].1.default_shortcut, "Shift+Control+Alt+ArrowLeft");
    assert_eq!(all[1].0, "moveMonitorRight");
    assert_eq!(all[1].1.default_shortcut, "Shift+Control+Alt+ArrowRight");
    assert_eq!(all[2].0, "maximizeWindow");
    assert_eq!(all[2].1.default_shortcut, "Control+Alt+Enter");
    assert_eq!(all[3].0, "almostMaximizeWindow");
    assert_eq!(all[3].1.default_shortcut, "Shift+Control+Alt+Enter");
}

#[test]
fn test_default_shortcut_config_is_empty() {
    let cfg = ShortcutConfig::default();
    assert_eq!(cfg.name, "");
    assert_eq!(cfg.default_shortcut, "");
}

#[test]
fn test_update_unknown_id_not_found() {
    let mgr = ShortcutManager::new(ShortcutsConfig::default());
    let step = mgr.update_step("noSuchAction", "Control+Alt+F5");
    assert!(matches!(step, UpdateStep::NotFound));
}

#[test]
fn test_update_no_op_when_normalized_equal() {
    // same combination in another order and case: no OS interaction
    let mgr = ShortcutManager::new(ShortcutsConfig::default());
    let step = mgr.update_step("maximizeWindow", "alt+control+ENTER");
    assert!(matches!(step, UpdateStep::NoChange));
    // the store is untouched
    assert_eq!(
        mgr.shortcuts.get_all_shortcuts()[2].1.default_shortcut,
        "Control+Alt+Enter"
    );
}

#[test]
fn test_update_proceed_carries_translated_strings() {
    let mgr = ShortcutManager::new(ShortcutsConfig::default());
    let step = mgr.update_step("maximizeWindow", "Control+Alt+,");
    match step {
        UpdateStep::Proceed { to_register, old_exact, old_normalized } => {
            assert_eq!(to_register, "Control+Alt+Comma");
            assert_eq!(old_exact, "Control+Alt+Enter");
            assert_eq!(old_normalized, "control+alt+enter");
        },
        _ => panic!("expected Proceed"),
    }
}

#[test]
fn test_update_commit_registers_new_combination() {
    let mut mgr = ShortcutManager::new(ShortcutsConfig::default());
    let r = mgr.commit_update("maximizeWindow", "Control+Alt+F5", RegistrationOutcome::Registered);
    assert!(r.is_ok());
    assert_eq!(mgr.shortcuts.get_all_shortcuts()[2].1.default_shortcut, "Control+Alt+F5");
    // the other bindings are untouched
    assert_eq!(
        mgr.shortcuts.get_all_shortcuts()[0].1.default_shortcut,
        "Shift+Control+Alt+ArrowLeft"
    );
}

#[test]
fn test_update_failure_keeps_old_binding() {
    // a refused OS registration leaves the stored combination unchanged
    let mut mgr = ShortcutManager::new(ShortcutsConfig::default());
    let r = mgr.commit_update("maximizeWindow", "Control+Alt+F5", RegistrationOutcome::Refused);
    assert_eq!(r, Err(RegistryError::RegistrationConflict));
    assert_eq!(
        mgr.shortcuts.get_all_shortcuts()[2].1.default_shortcut,
        "Control+Alt+Enter"
    );
}

#[test]
fn test_update_parse_failure_changes_nothing() {
    let mut mgr = ShortcutManager::new(ShortcutsConfig::default());
    let r = mgr.commit_update("maximizeWindow", "NotAShortcut", RegistrationOutcome::ParseFailed);
    assert_eq!(r, Err(RegistryError::InvalidShortcutFormat));
    assert_eq!(
        mgr.shortcuts.get_all_shortcuts()[2].1.default_shortcut,
        "Control+Alt+Enter"
    );
}

#[test]
fn test_update_commit_unknown_id() {
    let mut mgr = ShortcutManager::new(ShortcutsConfig::default());
    let r = mgr.commit_update("noSuchAction", "Control+Alt+F5", RegistrationOutcome::Registered);
    assert_eq!(r, Err(RegistryError::BindingNotFound));
}

#[test]
fn test_bulk_registration_skips_duplicate_combination() {
    // two bindings normalizing identically: exactly one is attempted
    let config = ShortcutsConfig {
        shortcuts: vec![
            binding("first", "First", "Control+Alt+T"),
            binding("second", "Second", "alt+control+t"),
            binding("third", "Third", "Control+Alt+U"),
        ],
    };
    let plan = registration_plan(&config);
    assert_eq!(plan.len(), 3);
    assert!(!plan[0].duplicate);
    assert!(plan[1].duplicate);
    assert!(!plan[2].duplicate);
    assert_eq!(plan[0].normal, plan[1].normal);
    // the skipped duplicate does not fail the whole startup
    let outcomes = vec![true, false, true];
    assert_eq!(evaluate_registration(&plan, &outcomes), Ok(2));
}

#[test]
fn test_bulk_registration_translates_and_normalizes() {
    let config = ShortcutsConfig {
        shortcuts: vec![binding("comma", "Comma", "Control+,")],
    };
    let plan = registration_plan(&config);
    assert_eq!(plan[0].translated, "Control+Comma");
    assert_eq!(plan[0].normal, "control+comma");
    assert_eq!(plan[0].id, "comma");
    assert_eq!(plan[0].shortcut, "Control+,");
}

#[test]
fn test_bulk_registration_zero_successes_fails() {
    let config = ShortcutsConfig::default();
    let plan = registration_plan(&config);
    let outcomes = vec![false, false, false, false];
    assert_eq!(
        evaluate_registration(&plan, &outcomes),
        Err(RegistryError::NoShortcutsRegistered)
    );
}

#[test]
fn test_bulk_registration_counts_successes() {
    let config = ShortcutsConfig::default();
    let plan = registration_plan(&config);
    assert!(plan.iter().all(|e| !e.duplicate));
    let outcomes = vec![true, false, true, true];
    assert_eq!(evaluate_registration(&plan, &outcomes), Ok(3));
}

#[test]
fn test_error_descriptions() {
    assert_eq!(RegistryError::InvalidShortcutFormat.describe(), "invalid shortcut format");
    assert_eq!(RegistryError::RegistrationConflict.describe(), "failed to register shortcut");
    assert_eq!(RegistryError::BindingNotFound.describe(), "shortcut not found");
    assert_eq!(
        RegistryError::NoShortcutsRegistered.describe(),
        "failed to register any shortcuts"
    );
}

#[test]
fn test_dispatch_lookup_via_normalized_combination() {
    // a fired hotkey is matched by normalized form, whatever its casing
    let config = ShortcutsConfig::default();
    let fired = normalize_shortcut("shift+control+alt+arrowleft");
    let plan = registration_plan(&config);
    let hit: Vec<_> = plan.iter().filter(|e| e.normal == fired).collect();
    assert_eq!(hit.len(), 1);
    assert_eq!(hit[0].id, "moveMonitorLeft");
    let _ = translate_key_symbols("Control+.");
}

#[test]
fn test_action_for_id_mapping() {
    assert_eq!(action_for_id("moveMonitorLeft"), Some(Action::MoveLeft));
    assert_eq!(action_for_id("maximizeWindow"), Some(Action::Maximize { gutter: 0 }));
    assert_eq!(action_for_id("almostMaximizeWindow"), Some(Action::Maximize { gutter: 32 }));
    assert_eq!(action_for_id("lastTwoThirds"), Some(Action::LastTwoThirds));
    assert_eq!(action_for_id("noSuchAction"), None);
}

#[test]
fn test_dispatch_lookup_matches_normalized_form() {
    let config = ShortcutsConfig::default();
    // the fired combination arrives in another order and case
    let hit = dispatch_lookup(&config, "alt+control+shift+ARROWLEFT");
    match hit {
        Some((id, action)) => {
            assert_eq!(id, "moveMonitorLeft");
            assert_eq!(action, Action::MoveLeft);
        },
        None => panic!("expected a dispatch hit"),
    }
    assert!(dispatch_lookup(&config, "control+q").is_none());
}

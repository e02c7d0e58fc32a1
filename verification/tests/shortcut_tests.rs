use smartpaste::config::{default_config, Config, ConfigKey};
use smartpaste::shortcuts::{
    find_matching_shortcut, get_all_shortcuts, get_current_shortcut, handler_key_for_storage_key,
    load_shortcut_from_storage, normalize_shortcut_format, record_shortcut, registration_failure,
    shortcut_config, shortcut_configs, AppShortcutManager,
};
use smartpaste::config::get_config_item;
use smartpaste::config::ConfigValue;

#[test]
fn test_normalize_shortcut_format() {
    assert_eq!(normalize_shortcut_format("Ctrl+Alt+Delete"), "control+alt+delete");
    assert_eq!(normalize_shortcut_format("SHIFT+V"), "shift+v");

    assert_eq!(normalize_shortcut_format("KeyA"), "a");
    assert_eq!(normalize_shortcut_format("KeyZ"), "z");
    assert_eq!(normalize_shortcut_format("Ctrl+KeyC"), "control+c");

    assert_eq!(normalize_shortcut_format("Cmd+C"), "super+c");
    assert_eq!(normalize_shortcut_format("Meta+V"), "super+v");
    assert_eq!(normalize_shortcut_format("Command+Shift+3"), "super+shift+3");

    assert_eq!(normalize_shortcut_format("Ctrl+Shift+KeyV"), "control+shift+v");
}

#[test]
fn test_app_shortcut_manager_logic() {
    let mut manager = AppShortcutManager::new();

    assert!(manager.is_empty());

    manager.set_shortcut("toggleWindow", "Alt+Space".to_string());
    assert_eq!(manager.get_shortcut("toggleWindow"), Some("Alt+Space".to_string()));

    manager.set_shortcut("toggleWindow", "Ctrl+Space".to_string());
    assert_eq!(manager.get_shortcut("toggleWindow"), Some("Ctrl+Space".to_string()));

    assert_eq!(manager.get_shortcut("nonexistent"), None);

    manager.remove_shortcut("toggleWindow");
    assert_eq!(manager.get_shortcut("toggleWindow"), None);
}

#[test]
fn test_shortcut_configs_integrity() {
    let configs = shortcut_configs();
    assert!(!configs.is_empty());

    for config in configs.iter() {
        let mapped_handler_key = handler_key_for_storage_key(&config.storage_key);
        assert!(mapped_handler_key.is_some(), "Missing mapping for storage key: {}", config.storage_key);
        assert_eq!(mapped_handler_key.unwrap(), config.handler_key, "Mapping mismatch for {}", config.handler_key);
        assert!(!config.default_value.is_empty());
    }

    assert!(shortcut_config("toggleWindow").is_some());
    assert!(shortcut_config("clearHistory").is_some());
}

#[test]
fn shortcut_table_rows_and_defaults() {
    let configs = shortcut_configs();
    let rows: Vec<(String, String, String)> = configs
        .iter()
        .map(|c| (c.handler_key.clone(), c.storage_key.clone(), c.default_value.clone()))
        .collect();
    assert_eq!(
        rows,
        vec![
            ("toggleWindow".to_string(), "global_shortcut".to_string(), "Shift+V".to_string()),
            ("pasteWindow".to_string(), "global_shortcut_2".to_string(), "Shift+Alt+C".to_string()),
            ("AIWindow".to_string(), "global_shortcut_3".to_string(), "Shift+Ctrl+A".to_string()),
            ("setWindow".to_string(), "global_shortcut_4".to_string(), "Shift+Ctrl+V".to_string()),
            ("clearHistory".to_string(), "global_shortcut_5".to_string(), "Shift+Ctrl+Delete".to_string()),
        ]
    );
    assert_eq!(handler_key_for_storage_key("unknown_key"), None);
    assert!(shortcut_config("global_shortcut").is_none());
}

#[test]
fn load_shortcut_prefers_settings_then_defaults() {
    let mut cfg: Config = default_config();
    cfg.global_shortcut_3 = "Alt+Q".to_string();
    assert_eq!(load_shortcut_from_storage("global_shortcut_3", Some(&cfg)), "Alt+Q");
    assert_eq!(load_shortcut_from_storage("global_shortcut_3", None), "Shift+Ctrl+A");
    assert_eq!(load_shortcut_from_storage("global_shortcut_5", None), "Shift+Ctrl+Delete");
    assert_eq!(load_shortcut_from_storage("toggleWindow", Some(&cfg)), "");
}

#[test]
fn matching_a_pressed_shortcut() {
    let mut manager = AppShortcutManager::new();
    manager.set_shortcut("global_shortcut", "Shift+V".to_string());
    manager.set_shortcut("global_shortcut_2", "Ctrl+Shift+KeyC".to_string());
    let found = find_matching_shortcut(&manager, "control+shift+c");
    assert_eq!(found, Some("global_shortcut_2".to_string()));
    assert!(find_matching_shortcut(&manager, "Alt+F4").is_none());
}

#[test]
fn current_shortcut_and_registration_messages() {
    let mut manager = AppShortcutManager::new();
    assert_eq!(get_current_shortcut(&manager, "toggleWindow"), Err("快捷键未找到".to_string()));
    manager.set_shortcut("toggleWindow", "Alt+V".to_string());
    assert_eq!(get_current_shortcut(&manager, "toggleWindow"), Ok("Alt+V".to_string()));
    assert_eq!(registration_failure("busy"), "注册快捷键失败，可能已被占用: busy");
}

#[test]
fn recording_a_shortcut_writes_its_setting() {
    let mut manager = AppShortcutManager::new();
    let mut cfg = default_config();
    record_shortcut(&mut manager, &mut cfg, "pasteWindow", "Alt+P".to_string());
    assert_eq!(manager.get_shortcut("pasteWindow"), Some("Alt+P".to_string()));
    assert_eq!(cfg.global_shortcut_2, "Alt+P");
    assert_eq!(
        get_config_item(Some(&cfg), "global_shortcut_2"),
        Ok(ConfigValue::Text("Alt+P".to_string()))
    );

    let before = default_config();
    let mut cfg2 = default_config();
    record_shortcut(&mut manager, &mut cfg2, "global_shortcut", "Alt+G".to_string());
    assert_eq!(cfg2, before);
    assert_eq!(manager.get_shortcut("global_shortcut"), Some("Alt+G".to_string()));
    let _ = ConfigKey::GlobalShortcut;
}

#[test]
fn all_shortcuts_lists_each_key_once() {
    let mut manager = AppShortcutManager::new();
    assert!(get_all_shortcuts(&manager).is_empty());
    manager.set_shortcut("global_shortcut", "Alt+V".to_string());
    manager.set_shortcut("global_shortcut_2", "Ctrl+S".to_string());
    manager.set_shortcut("global_shortcut", "Alt+B".to_string());
    let mut all = get_all_shortcuts(&manager);
    all.sort();
    assert_eq!(
        all,
        vec![
            ("global_shortcut".to_string(), "Alt+B".to_string()),
            ("global_shortcut_2".to_string(), "Ctrl+S".to_string()),
        ]
    );
}

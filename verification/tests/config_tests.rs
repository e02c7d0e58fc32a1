use smartpaste::config::{
    config_key_name, default_config, default_shortcut, default_shortcut_2, default_shortcut_3,
    default_shortcut_4, default_shortcut_5, get_config_item, parse_config_key,
    update_simple_config_item, Config, ConfigKey, ConfigValue,
};
use smartpaste::config_update::{
    autostart_applied, begin_config_update, begin_internal_update, save_reply, storage_move_step,
    ConfigPlan, MoveStage, MoveStep, MOVE_DONE_REPLY,
};
use smartpaste::paths::{
    fill_default_storage_path, get_config_path, get_current_storage_path, get_db_path,
    normalize_to_forward_slashes, resolve_absolute_path,
};

fn text(s: &str) -> ConfigValue {
    ConfigValue::Text(s.to_string())
}

#[test]
fn test_update_simple_config_item() {
    let mut cfg = default_config();

    let key = ConfigKey::TrayIconVisible;
    update_simple_config_item(&mut cfg, &key, ConfigValue::Bool(true)).unwrap();
    assert_eq!(cfg.tray_icon_visible, true);

    let res = update_simple_config_item(&mut cfg, &key, ConfigValue::Bool(false));
    assert_eq!(res, Ok(true));
    assert_eq!(cfg.tray_icon_visible, false);

    let key = ConfigKey::MaxHistoryItems;
    let res = update_simple_config_item(&mut cfg, &key, ConfigValue::U32(999));
    assert_eq!(res, Ok(true));
    assert_eq!(cfg.max_history_items, 999);

    let key = ConfigKey::GlobalShortcut;
    let res = update_simple_config_item(&mut cfg, &key, text("Ctrl+Alt+K"));
    assert_eq!(res, Ok(true));
    assert_eq!(cfg.global_shortcut, "Ctrl+Alt+K");

    let key = ConfigKey::AiApiKey;
    let res = update_simple_config_item(&mut cfg, &key, ConfigValue::OptText(Some("sk-123456".to_string())));
    assert_eq!(res, Ok(true));
    assert_eq!(cfg.ai_api_key, Some("sk-123456".to_string()));

    let res = update_simple_config_item(&mut cfg, &key, ConfigValue::OptText(None));
    assert_eq!(res, Ok(true));
    assert_eq!(cfg.ai_api_key, None);

    let key = ConfigKey::MaxHistoryItems;
    let res = update_simple_config_item(&mut cfg, &key, text("not a number"));
    assert!(res.is_err());

    let key = ConfigKey::Autostart;
    let res = update_simple_config_item(&mut cfg, &key, ConfigValue::Bool(true));
    assert_eq!(res, Ok(false));
}

#[test]
fn test_get_config_item() {
    let mut cfg = default_config();

    update_simple_config_item(&mut cfg, &ConfigKey::TrayIconVisible, ConfigValue::Bool(true)).unwrap();
    update_simple_config_item(&mut cfg, &ConfigKey::MaxHistoryItems, ConfigValue::U32(500)).unwrap();

    let result = get_config_item(Some(&cfg), "tray_icon_visible");
    assert!(result.is_ok());
    assert_eq!(result.unwrap(), ConfigValue::Bool(true));

    let result = get_config_item(Some(&cfg), "max_history_items");
    assert!(result.is_ok());
    assert_eq!(result.unwrap(), ConfigValue::U32(500));

    let result = get_config_item(Some(&cfg), "global_shortcut");
    assert!(result.is_ok());

    let result = get_config_item(Some(&cfg), "ai_api_key");
    assert!(result.is_ok());

    let result = get_config_item(Some(&cfg), "ignored_apps");
    assert!(result.is_ok());

    let result = get_config_item(Some(&cfg), "invalid_key");
    assert!(result.is_err());
    assert_eq!(result.unwrap_err(), "Invalid config key: invalid_key");

    update_simple_config_item(&mut cfg, &ConfigKey::MaxHistoryItems, ConfigValue::U32(999)).unwrap();
    let result = get_config_item(Some(&cfg), "max_history_items");
    assert!(result.is_ok());
    assert_eq!(result.unwrap(), ConfigValue::U32(999));
}

#[test]
fn test_parse_config_key() {
    assert_eq!(parse_config_key("autostart"), Some(ConfigKey::Autostart));
    assert_eq!(parse_config_key("tray_icon_visible"), Some(ConfigKey::TrayIconVisible));
    assert_eq!(parse_config_key("max_history_items"), Some(ConfigKey::MaxHistoryItems));
    assert_eq!(parse_config_key("ai_enabled"), Some(ConfigKey::AiEnabled));
    assert_eq!(parse_config_key("ocr_provider"), Some(ConfigKey::OcrProvider));

    assert_eq!(parse_config_key("invalid_key"), None);
    assert_eq!(parse_config_key(""), None);
    assert_eq!(parse_config_key("AUTOSTART"), None);
}

#[test]
fn test_config_default_values() {
    let config = Config::default();

    assert_eq!(config.autostart, false);
    assert_eq!(config.tray_icon_visible, true);
    assert_eq!(config.minimize_to_tray, false);
    assert_eq!(config.auto_save, true);
    assert_eq!(config.retention_days, 30);
    assert_eq!(config.global_shortcut, "Shift+V");

    assert_eq!(config.max_history_items, 500);
    assert_eq!(config.ignore_short_text_len, 0);
    assert_eq!(config.ignore_big_file_mb, 5);
    assert_eq!(config.ignored_apps, Vec::<String>::new());
    assert_eq!(config.auto_classify, true);

    assert_eq!(config.ai_enabled, false);
    assert_eq!(config.ai_api_key, None);

    assert_eq!(config.sensitive_filter, true);

    assert_eq!(config.cloud_sync_enabled, false);
    assert_eq!(config.sync_frequency, "5min");
}

#[test]
fn test_update_multiple_config_items() {
    let mut cfg = default_config();

    update_simple_config_item(&mut cfg, &ConfigKey::TrayIconVisible, ConfigValue::Bool(false)).unwrap();
    update_simple_config_item(&mut cfg, &ConfigKey::MaxHistoryItems, ConfigValue::U32(1000)).unwrap();
    update_simple_config_item(&mut cfg, &ConfigKey::AiEnabled, ConfigValue::Bool(true)).unwrap();
    update_simple_config_item(&mut cfg, &ConfigKey::AiApiKey, ConfigValue::OptText(Some("sk-test-key".to_string()))).unwrap();

    assert_eq!(cfg.tray_icon_visible, false);
    assert_eq!(cfg.max_history_items, 1000);
    assert_eq!(cfg.ai_enabled, true);
    assert_eq!(cfg.ai_api_key, Some("sk-test-key".to_string()));
}

#[test]
fn test_update_config_with_edge_cases() {
    let mut cfg = default_config();

    assert!(update_simple_config_item(&mut cfg, &ConfigKey::MaxHistoryItems, ConfigValue::U32(0)).is_ok());
    assert!(update_simple_config_item(&mut cfg, &ConfigKey::MaxHistoryItems, ConfigValue::U32(u32::MAX)).is_ok());

    assert!(update_simple_config_item(&mut cfg, &ConfigKey::GlobalShortcut, text("")).is_ok());

    assert!(update_simple_config_item(&mut cfg, &ConfigKey::IgnoredApps, ConfigValue::TextList(vec![])).is_ok());

    assert!(update_simple_config_item(&mut cfg, &ConfigKey::AiApiKey, ConfigValue::OptText(None)).is_ok());
    assert_eq!(cfg.ai_api_key, None);
}

#[test]
fn test_get_config_item_all_types() {
    let cfg = default_config();
    let c = Some(&cfg);

    assert!(get_config_item(c, "autostart").is_ok());
    assert!(get_config_item(c, "ai_enabled").is_ok());

    assert!(get_config_item(c, "retention_days").is_ok());
    assert!(get_config_item(c, "max_history_items").is_ok());

    assert!(get_config_item(c, "global_shortcut").is_ok());
    assert!(get_config_item(c, "backup_frequency").is_ok());

    assert!(get_config_item(c, "ai_api_key").is_ok());
    assert!(get_config_item(c, "storage_path").is_ok());

    assert!(get_config_item(c, "ignored_apps").is_ok());

    assert!(get_config_item(c, "ocr_languages").is_ok());

    assert!(get_config_item(c, "ocr_confidence_threshold").is_ok());

    assert!(get_config_item(c, "ocr_timeout_secs").is_ok());
}

#[test]
fn test_vec_config_updates() {
    let mut cfg = default_config();

    let apps = vec!["app1".to_string(), "app2".to_string()];
    update_simple_config_item(&mut cfg, &ConfigKey::IgnoredApps, ConfigValue::TextList(apps)).unwrap();

    let result = get_config_item(Some(&cfg), "ignored_apps");
    assert_eq!(result.unwrap(), ConfigValue::TextList(vec!["app1".to_string(), "app2".to_string()]));
}

#[test]
fn test_option_vec_config() {
    let mut cfg = default_config();

    let langs = vec!["en".to_string(), "zh".to_string()];
    update_simple_config_item(&mut cfg, &ConfigKey::OcrLanguages, ConfigValue::OptTextList(Some(langs))).unwrap();

    let result = get_config_item(Some(&cfg), "ocr_languages");
    assert_eq!(
        result.unwrap(),
        ConfigValue::OptTextList(Some(vec!["en".to_string(), "zh".to_string()]))
    );

    update_simple_config_item(&mut cfg, &ConfigKey::OcrLanguages, ConfigValue::OptTextList(None)).unwrap();
    let result = get_config_item(Some(&cfg), "ocr_languages");
    assert_eq!(result.unwrap(), ConfigValue::OptTextList(None));
}

#[test]
fn test_numeric_option_types() {
    let mut cfg = default_config();

    update_simple_config_item(
        &mut cfg,
        &ConfigKey::OcrConfidenceThreshold,
        ConfigValue::OptFloat(Some(0.85f32.to_bits())),
    )
    .unwrap();
    let result = get_config_item(Some(&cfg), "ocr_confidence_threshold");

    if let Ok(ConfigValue::OptFloat(Some(bits))) = result {
        let num = f32::from_bits(bits) as f64;
        let diff = (num - 0.85).abs();
        assert!(diff < 0.0001, "Expected ~0.85, got {}", num);
    } else {
        panic!("Expected number, got {:?}", result);
    }

    update_simple_config_item(&mut cfg, &ConfigKey::OcrTimeoutSecs, ConfigValue::OptU64(Some(30))).unwrap();
    let result = get_config_item(Some(&cfg), "ocr_timeout_secs");
    assert_eq!(result.unwrap(), ConfigValue::OptU64(Some(30)));
}

#[test]
fn test_config_coverage_extensions() {
    let mut cfg = default_config();

    let bool_keys = vec![
        ConfigKey::MinimizeToTray,
        ConfigKey::AutoSave,
        ConfigKey::AutoClassify,
        ConfigKey::OcrAutoRecognition,
        ConfigKey::DeleteConfirmation,
        ConfigKey::KeepFavoritesOnDelete,
        ConfigKey::AutoSort,
        ConfigKey::AiEnabled,
        ConfigKey::AiAutoTag,
        ConfigKey::AiAutoSummary,
        ConfigKey::AiTranslation,
        ConfigKey::AiWebSearch,
        ConfigKey::SensitiveFilter,
        ConfigKey::FilterPasswords,
        ConfigKey::FilterBankCards,
        ConfigKey::FilterIdCards,
        ConfigKey::FilterPhoneNumbers,
        ConfigKey::AutoBackup,
        ConfigKey::CloudSyncEnabled,
        ConfigKey::EncryptCloudData,
        ConfigKey::SyncOnlyWifi,
    ];

    for key in bool_keys {
        update_simple_config_item(&mut cfg, &key, ConfigValue::Bool(true)).unwrap();
        update_simple_config_item(&mut cfg, &key, ConfigValue::Bool(false)).unwrap();
    }

    let string_keys = vec![
        ConfigKey::GlobalShortcut2,
        ConfigKey::GlobalShortcut3,
        ConfigKey::GlobalShortcut4,
        ConfigKey::GlobalShortcut5,
        ConfigKey::AiProvider,
        ConfigKey::AiModel,
        ConfigKey::BackupFrequency,
        ConfigKey::SyncFrequency,
        ConfigKey::SyncContentType,
    ];

    for key in string_keys {
        update_simple_config_item(&mut cfg, &key, text("test_value")).unwrap();
    }

    let opt_string_keys = vec![
        ConfigKey::AiBaseUrl,
        ConfigKey::StoragePath,
        ConfigKey::LastBackupPath,
        ConfigKey::Username,
        ConfigKey::Email,
        ConfigKey::Bio,
        ConfigKey::AvatarPath,
        ConfigKey::OcrProvider,
    ];

    for key in opt_string_keys {
        update_simple_config_item(&mut cfg, &key, ConfigValue::OptText(Some("some_val".to_string()))).unwrap();
        update_simple_config_item(&mut cfg, &key, ConfigValue::OptText(None)).unwrap();
    }

    let u32_keys = vec![ConfigKey::RetentionDays, ConfigKey::IgnoreShortTextLen, ConfigKey::IgnoreBigFileMb];
    for key in u32_keys {
        update_simple_config_item(&mut cfg, &key, ConfigValue::U32(10)).unwrap();
    }

    update_simple_config_item(&mut cfg, &ConfigKey::AiTemperature, ConfigValue::Float(0.5f32.to_bits())).unwrap();

    let all_keys = vec![
        "minimize_to_tray",
        "auto_save",
        "retention_days",
        "global_shortcut_2",
        "global_shortcut_3",
        "global_shortcut_4",
        "global_shortcut_5",
        "ignore_short_text_len",
        "ignore_big_file_mb",
        "auto_classify",
        "ocr_auto_recognition",
        "delete_confirmation",
        "keep_favorites_on_delete",
        "auto_sort",
        "ai_provider",
        "ai_model",
        "ai_base_url",
        "ai_temperature",
        "ai_auto_tag",
        "ai_auto_summary",
        "ai_translation",
        "ai_web_search",
        "sensitive_filter",
        "filter_passwords",
        "filter_bank_cards",
        "filter_id_cards",
        "filter_phone_numbers",
        "storage_path",
        "auto_backup",
        "backup_frequency",
        "last_backup_path",
        "cloud_sync_enabled",
        "sync_frequency",
        "sync_content_type",
        "encrypt_cloud_data",
        "sync_only_wifi",
        "username",
        "email",
        "bio",
        "avatar_path",
        "ocr_provider",
    ];

    for key in all_keys {
        assert!(get_config_item(Some(&cfg), key).is_ok(), "Failed to get key: {}", key);
    }
}

#[test]
fn test_set_config_item_internal_error() {
    let mut cfg = default_config();

    let res = begin_internal_update(&mut cfg, "autostart", Some(ConfigValue::Bool(true)));
    assert!(res.is_err());
    assert!(res.err().unwrap().contains("requires AppHandle"));

    let res = begin_internal_update(&mut cfg, "invalid_key_xyz", Some(ConfigValue::Bool(true)));
    assert!(res.is_err());
}

#[test]
fn internal_update_writes_and_reports_type_errors() {
    let mut cfg = default_config();
    assert_eq!(begin_internal_update(&mut cfg, "max_history_items", Some(ConfigValue::U32(42))), Ok(()));
    assert_eq!(cfg.max_history_items, 42);
    assert_eq!(
        begin_internal_update(&mut cfg, "max_history_items", Some(text("x"))),
        Err("Invalid type for config key".to_string())
    );
    assert_eq!(
        begin_internal_update(&mut cfg, "max_history_items", None),
        Err("Invalid type for config key".to_string())
    );
    assert_eq!(
        begin_internal_update(&mut cfg, "autostart", None),
        Err("Config key 'autostart' requires AppHandle context".to_string())
    );
    assert_eq!(
        begin_internal_update(&mut cfg, "nope", None),
        Err("Invalid config key: nope".to_string())
    );
}

#[test]
fn config_key_names_round_trip() {
    for name in ["autostart", "global_shortcut_4", "ocr_timeout_secs", "storage_path"] {
        let k = parse_config_key(name).unwrap();
        assert_eq!(config_key_name(k), name);
    }
}

#[test]
fn default_shortcuts_match_the_table() {
    assert_eq!(default_shortcut(), "Shift+V");
    assert_eq!(default_shortcut_2(), "Shift+Alt+C");
    assert_eq!(default_shortcut_3(), "Shift+Alt+A");
    assert_eq!(default_shortcut_4(), "Shift+Ctrl+V");
    assert_eq!(default_shortcut_5(), "Shift+Ctrl+Delete");
}

#[test]
fn get_config_item_before_loading() {
    assert_eq!(get_config_item(None, "autostart"), Err("Config not initialized".to_string()));
    assert_eq!(get_config_item(None, "bogus"), Err("Invalid config key: bogus".to_string()));
}

#[test]
fn begin_config_update_answers_and_plans() {
    let mut cfg = default_config();
    let before = default_config();

    assert_eq!(
        begin_config_update(&mut cfg, "nope", Some(ConfigValue::Bool(true)), "/data"),
        ConfigPlan::Reply("Invalid config key: nope".to_string())
    );
    assert_eq!(
        begin_config_update(&mut cfg, "storage_path", Some(ConfigValue::OptText(None)), "/data"),
        ConfigPlan::Reply("Invalid storage path value".to_string())
    );
    assert_eq!(
        begin_config_update(&mut cfg, "storage_path", Some(ConfigValue::OptText(Some("  ".to_string()))), "/data"),
        ConfigPlan::Reply("Storage path cannot be empty".to_string())
    );
    assert_eq!(
        begin_config_update(&mut cfg, "storage_path", Some(ConfigValue::OptText(Some("/data/".to_string()))), "/data"),
        ConfigPlan::Reply("Storage path unchanged".to_string())
    );
    assert_eq!(
        begin_config_update(&mut cfg, "storage_path", Some(ConfigValue::OptText(Some("/other".to_string()))), "/data"),
        ConfigPlan::MoveStorage("/other".to_string())
    );
    assert_eq!(
        begin_config_update(&mut cfg, "autostart", Some(ConfigValue::Bool(true)), "/data"),
        ConfigPlan::SwitchAutostart(true)
    );
    assert_eq!(
        begin_config_update(&mut cfg, "autostart", Some(ConfigValue::U32(1)), "/data"),
        ConfigPlan::Reply("Invalid type for key 'autostart'".to_string())
    );
    assert_eq!(cfg, before);

    assert_eq!(
        begin_config_update(&mut cfg, "tray_icon_visible", Some(ConfigValue::Bool(false)), "/data"),
        ConfigPlan::ApplyTrayThenSave(false)
    );
    assert_eq!(cfg.tray_icon_visible, false);
    assert_eq!(
        begin_config_update(&mut cfg, "retention_days", Some(ConfigValue::U32(7)), "/data"),
        ConfigPlan::Save
    );
    assert_eq!(cfg.retention_days, 7);
    assert_eq!(
        begin_config_update(&mut cfg, "retention_days", None, "/data"),
        ConfigPlan::Reply("Invalid type for config key".to_string())
    );
}

#[test]
fn replies_after_saving_and_autostart() {
    assert_eq!(save_reply(Ok(())), "config updated");
    assert_eq!(save_reply(Err("disk full".to_string())), "failed to save config: disk full");

    let mut cfg = default_config();
    assert_eq!(autostart_applied(&mut cfg, true, Ok(())), ConfigPlan::Save);
    assert!(cfg.autostart);
    assert_eq!(
        autostart_applied(&mut cfg, false, Err("denied".to_string())),
        ConfigPlan::Reply("Failed to change autostart: denied".to_string())
    );
    assert!(cfg.autostart);
}

#[test]
fn storage_move_runs_its_stages() {
    let mut cfg = default_config();
    let ok = || -> Result<(), String> { Ok(()) };
    assert_eq!(storage_move_step(&mut cfg, "D:\\new", MoveStage::CreateDir, ok()), MoveStep::Next(MoveStage::SaveCurrent));
    assert_eq!(storage_move_step(&mut cfg, "D:\\new", MoveStage::SaveCurrent, ok()), MoveStep::Next(MoveStage::Migrate));
    assert_eq!(storage_move_step(&mut cfg, "D:\\new", MoveStage::Migrate, ok()), MoveStep::Next(MoveStage::RewritePaths));
    assert_eq!(
        storage_move_step(&mut cfg, "D:\\new", MoveStage::RewritePaths, Err("ignored".to_string())),
        MoveStep::Next(MoveStage::SwitchConfigPath)
    );
    assert_eq!(cfg.storage_path, Some("D:/new".to_string()));
    assert_eq!(storage_move_step(&mut cfg, "D:\\new", MoveStage::SwitchConfigPath, ok()), MoveStep::Next(MoveStage::SaveNew));
    assert_eq!(storage_move_step(&mut cfg, "D:\\new", MoveStage::SaveNew, ok()), MoveStep::Done);
    assert_eq!(MOVE_DONE_REPLY, "config updated and data migrated");
}

#[test]
fn storage_move_failures() {
    let mut cfg = default_config();
    let e = || Err::<(), String>("boom".to_string());
    assert_eq!(
        storage_move_step(&mut cfg, "/n", MoveStage::CreateDir, e()),
        MoveStep::Fail { message: "Failed to create storage path: boom".to_string(), restore_config_path: false }
    );
    assert_eq!(
        storage_move_step(&mut cfg, "/n", MoveStage::SaveCurrent, e()),
        MoveStep::Fail {
            message: "Failed to save current config before migration: boom".to_string(),
            restore_config_path: false
        }
    );
    assert_eq!(
        storage_move_step(&mut cfg, "/n", MoveStage::Migrate, e()),
        MoveStep::Fail { message: "Data migration failed: boom".to_string(), restore_config_path: false }
    );
    assert_eq!(
        storage_move_step(&mut cfg, "/n", MoveStage::SwitchConfigPath, e()),
        MoveStep::Fail { message: "Failed to set config path".to_string(), restore_config_path: true }
    );
    assert_eq!(
        storage_move_step(&mut cfg, "/n", MoveStage::SaveNew, e()),
        MoveStep::Fail { message: "failed to save config: boom".to_string(), restore_config_path: true }
    );
    assert_eq!(cfg, default_config());
}

#[test]
fn storage_paths_and_defaults() {
    let mut cfg = default_config();
    cfg.storage_path = Some("/srv/smartpaste".to_string());
    assert_eq!(get_current_storage_path(Some(&cfg), "/etc/app/config.json"), "/srv/smartpaste");
    cfg.storage_path = Some("   ".to_string());
    assert_eq!(get_current_storage_path(Some(&cfg), "/etc/app/config.json"), "/etc/app");
    assert_eq!(get_current_storage_path(None, "config.json"), "");
    assert_eq!(get_current_storage_path(None, "/"), ".");

    assert_eq!(get_db_path(None), "smartpaste.db");
    assert_eq!(get_db_path(Some("/x/y.db")), "/x/y.db");
    assert_eq!(get_config_path(None), "config.json");
    assert_eq!(get_config_path(Some("/a/c.json")), "/a/c.json");

    assert_eq!(normalize_to_forward_slashes("a\\b\\c"), "a/b/c");
    assert_eq!(normalize_to_forward_slashes("a/b/c"), "a/b/c");
}

#[test]
fn test_resolve_absolute_path() {
    let temp_dir = "/tmp/smartpaste_test_env";
    let mut cfg = default_config();
    cfg.storage_path = Some(temp_dir.to_string());

    let absolute = resolve_absolute_path(Some(&cfg), "/tmp/other/config.json", "files/image.png");
    let abs_str = absolute.replace("\\", "/");
    let temp_str = temp_dir.replace("\\", "/");
    assert!(abs_str.contains(&temp_str), "绝对路径解析错误，未包含临时目录");
    assert_eq!(abs_str, "/tmp/smartpaste_test_env/files/image.png");
}

#[test]
fn default_storage_path_is_filled_from_the_settings_file() {
    let mut cfg = default_config();
    cfg.storage_path = None;
    let created = fill_default_storage_path(&mut cfg, "/home/u/app/config.json");
    assert_eq!(created, Some("/home/u/app".to_string()));
    assert_eq!(cfg.storage_path, Some("/home/u/app".to_string()));

    let again = fill_default_storage_path(&mut cfg, "/elsewhere/config.json");
    assert_eq!(again, None);
    assert_eq!(cfg.storage_path, Some("/home/u/app".to_string()));
}

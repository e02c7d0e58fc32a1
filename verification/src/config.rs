//! Application settings: the configuration keys, the typed values they hold, the
//! default settings, and reading and writing one setting by key.
use vstd::prelude::*;
use crate::text::{clone_strings, is_blank, spec_is_blank, str_eq};

verus! {

/// The name of one setting.
#[derive(Debug, Clone, Copy, PartialEq, Eq, Structural)]
pub enum ConfigKey {
    Autostart,
    TrayIconVisible,
    MinimizeToTray,
    AutoSave,
    RetentionDays,
    GlobalShortcut,
    GlobalShortcut2,
    GlobalShortcut3,
    GlobalShortcut4,
    GlobalShortcut5,
    MaxHistoryItems,
    IgnoreShortTextLen,
    IgnoreBigFileMb,
    IgnoredApps,
    AutoClassify,
    OcrAutoRecognition,
    DeleteConfirmation,
    KeepFavoritesOnDelete,
    AutoSort,
    AiEnabled,
    AiProvider,
    AiModel,
    AiBaseUrl,
    AiTemperature,
    AiApiKey,
    AiAutoTag,
    AiAutoSummary,
    AiTranslation,
    AiWebSearch,
    SensitiveFilter,
    FilterPasswords,
    FilterBankCards,
    FilterIdCards,
    FilterPhoneNumbers,
    StoragePath,
    AutoBackup,
    BackupFrequency,
    LastBackupPath,
    CloudSyncEnabled,
    SyncFrequency,
    SyncContentType,
    EncryptCloudData,
    SyncOnlyWifi,
    Username,
    Email,
    Bio,
    AvatarPath,
    OcrProvider,
    OcrLanguages,
    OcrConfidenceThreshold,
    OcrTimeoutSecs,
}

/// The shape of the value a setting holds.
#[derive(Debug, Clone, Copy, PartialEq, Eq, Structural)]
pub enum ValueKind {
    Bool,
    U32,
    Text,
    OptText,
    TextList,
    OptTextList,
    /// A 32-bit float, carried as its IEEE 754 bit pattern.
    Float,
    /// An optional 32-bit float, carried as its IEEE 754 bit pattern.
    OptFloat,
    OptU64,
}

/// A setting's value, of one of the shapes settings have. Floats travel as their
/// IEEE 754 bit patterns (`f32::to_bits`).
#[derive(Debug, PartialEq)]
pub enum ConfigValue {
    Bool(bool),
    U32(u32),
    Text(String),
    OptText(Option<String>),
    TextList(Vec<String>),
    OptTextList(Option<Vec<String>>),
    Float(u32),
    OptFloat(Option<u32>),
    OptU64(Option<u64>),
}

/// What a setting's value holds, with strings as character sequences.
pub enum ValueModel {
    Bool(bool),
    U32(u32),
    Text(Seq<char>),
    OptText(Option<Seq<char>>),
    TextList(Seq<Seq<char>>),
    OptTextList(Option<Seq<Seq<char>>>),
    Float(u32),
    OptFloat(Option<u32>),
    OptU64(Option<u64>),
}

/// The characters of each string of a list.
pub open spec fn strings_view(v: Vec<String>) -> Seq<Seq<char>> {
    v@.map_values(|s: String| s@)
}

impl View for ConfigValue {
    type V = ValueModel;

    open spec fn view(&self) -> ValueModel {
        match self {
            ConfigValue::Bool(b) => ValueModel::Bool(*b),
            ConfigValue::U32(n) => ValueModel::U32(*n),
            ConfigValue::Text(s) => ValueModel::Text(s@),
            ConfigValue::OptText(o) => ValueModel::OptText(
                match o {
                    Some(s) => Some(s@),
                    None => None,
                },
            ),
            ConfigValue::TextList(l) => ValueModel::TextList(strings_view(*l)),
            ConfigValue::OptTextList(o) => ValueModel::OptTextList(
                match o {
                    Some(l) => Some(strings_view(*l)),
                    None => None,
                },
            ),
            ConfigValue::Float(b) => ValueModel::Float(*b),
            ConfigValue::OptFloat(o) => ValueModel::OptFloat(*o),
            ConfigValue::OptU64(o) => ValueModel::OptU64(*o),
        }
    }
}

/// The shape of a value.
pub open spec fn spec_kind_of(v: ConfigValue) -> ValueKind {
    match v {
        ConfigValue::Bool(_) => ValueKind::Bool,
        ConfigValue::U32(_) => ValueKind::U32,
        ConfigValue::Text(_) => ValueKind::Text,
        ConfigValue::OptText(_) => ValueKind::OptText,
        ConfigValue::TextList(_) => ValueKind::TextList,
        ConfigValue::OptTextList(_) => ValueKind::OptTextList,
        ConfigValue::Float(_) => ValueKind::Float,
        ConfigValue::OptFloat(_) => ValueKind::OptFloat,
        ConfigValue::OptU64(_) => ValueKind::OptU64,
    }
}

/// The shape of a value.
pub fn kind_of(v: &ConfigValue) -> (res: ValueKind)
    ensures
        res == spec_kind_of(*v),
{
    match v {
        ConfigValue::Bool(_) => ValueKind::Bool,
        ConfigValue::U32(_) => ValueKind::U32,
        ConfigValue::Text(_) => ValueKind::Text,
        ConfigValue::OptText(_) => ValueKind::OptText,
        ConfigValue::TextList(_) => ValueKind::TextList,
        ConfigValue::OptTextList(_) => ValueKind::OptTextList,
        ConfigValue::Float(_) => ValueKind::Float,
        ConfigValue::OptFloat(_) => ValueKind::OptFloat,
        ConfigValue::OptU64(_) => ValueKind::OptU64,
    }
}

/// The text by which a setting is named (also its field name in the settings file).
pub open spec fn spec_key_name(k: ConfigKey) -> Seq<char> {
    match k {
        ConfigKey::Autostart => "autostart"@,
        ConfigKey::TrayIconVisible => "tray_icon_visible"@,
        ConfigKey::MinimizeToTray => "minimize_to_tray"@,
        ConfigKey::AutoSave => "auto_save"@,
        ConfigKey::RetentionDays => "retention_days"@,
        ConfigKey::GlobalShortcut => "global_shortcut"@,
        ConfigKey::GlobalShortcut2 => "global_shortcut_2"@,
        ConfigKey::GlobalShortcut3 => "global_shortcut_3"@,
        ConfigKey::GlobalShortcut4 => "global_shortcut_4"@,
        ConfigKey::GlobalShortcut5 => "global_shortcut_5"@,
        ConfigKey::MaxHistoryItems => "max_history_items"@,
        ConfigKey::IgnoreShortTextLen => "ignore_short_text_len"@,
        ConfigKey::IgnoreBigFileMb => "ignore_big_file_mb"@,
        ConfigKey::IgnoredApps => "ignored_apps"@,
        ConfigKey::AutoClassify => "auto_classify"@,
        ConfigKey::OcrAutoRecognition => "ocr_auto_recognition"@,
        ConfigKey::DeleteConfirmation => "delete_confirmation"@,
        ConfigKey::KeepFavoritesOnDelete => "keep_favorites_on_delete"@,
        ConfigKey::AutoSort => "auto_sort"@,
        ConfigKey::AiEnabled => "ai_enabled"@,
        ConfigKey::AiProvider => "ai_provider"@,
        ConfigKey::AiModel => "ai_model"@,
        ConfigKey::AiBaseUrl => "ai_base_url"@,
        ConfigKey::AiTemperature => "ai_temperature"@,
        ConfigKey::AiApiKey => "ai_api_key"@,
        ConfigKey::AiAutoTag => "ai_auto_tag"@,
        ConfigKey::AiAutoSummary => "ai_auto_summary"@,
        ConfigKey::AiTranslation => "ai_translation"@,
        ConfigKey::AiWebSearch => "ai_web_search"@,
        ConfigKey::SensitiveFilter => "sensitive_filter"@,
        ConfigKey::FilterPasswords => "filter_passwords"@,
        ConfigKey::FilterBankCards => "filter_bank_cards"@,
        ConfigKey::FilterIdCards => "filter_id_cards"@,
        ConfigKey::FilterPhoneNumbers => "filter_phone_numbers"@,
        ConfigKey::StoragePath => "storage_path"@,
        ConfigKey::AutoBackup => "auto_backup"@,
        ConfigKey::BackupFrequency => "backup_frequency"@,
        ConfigKey::LastBackupPath => "last_backup_path"@,
        ConfigKey::CloudSyncEnabled => "cloud_sync_enabled"@,
        ConfigKey::SyncFrequency => "sync_frequency"@,
        ConfigKey::SyncContentType => "sync_content_type"@,
        ConfigKey::EncryptCloudData => "encrypt_cloud_data"@,
        ConfigKey::SyncOnlyWifi => "sync_only_wifi"@,
        ConfigKey::Username => "username"@,
        ConfigKey::Email => "email"@,
        ConfigKey::Bio => "bio"@,
        ConfigKey::AvatarPath => "avatar_path"@,
        ConfigKey::OcrProvider => "ocr_provider"@,
        ConfigKey::OcrLanguages => "ocr_languages"@,
        ConfigKey::OcrConfidenceThreshold => "ocr_confidence_threshold"@,
        ConfigKey::OcrTimeoutSecs => "ocr_timeout_secs"@,
    }
}

/// The text by which a setting is named.
pub fn config_key_name(k: ConfigKey) -> (res: &'static str)
    ensures
        res@ == spec_key_name(k),
{
    match k {
        ConfigKey::Autostart => "autostart",
        ConfigKey::TrayIconVisible => "tray_icon_visible",
        ConfigKey::MinimizeToTray => "minimize_to_tray",
        ConfigKey::AutoSave => "auto_save",
        ConfigKey::RetentionDays => "retention_days",
        ConfigKey::GlobalShortcut => "global_shortcut",
        ConfigKey::GlobalShortcut2 => "global_shortcut_2",
        ConfigKey::GlobalShortcut3 => "global_shortcut_3",
        ConfigKey::GlobalShortcut4 => "global_shortcut_4",
        ConfigKey::GlobalShortcut5 => "global_shortcut_5",
        ConfigKey::MaxHistoryItems => "max_history_items",
        ConfigKey::IgnoreShortTextLen => "ignore_short_text_len",
        ConfigKey::IgnoreBigFileMb => "ignore_big_file_mb",
        ConfigKey::IgnoredApps => "ignored_apps",
        ConfigKey::AutoClassify => "auto_classify",
        ConfigKey::OcrAutoRecognition => "ocr_auto_recognition",
        ConfigKey::DeleteConfirmation => "delete_confirmation",
        ConfigKey::KeepFavoritesOnDelete => "keep_favorites_on_delete",
        ConfigKey::AutoSort => "auto_sort",
        ConfigKey::AiEnabled => "ai_enabled",
        ConfigKey::AiProvider => "ai_provider",
        ConfigKey::AiModel => "ai_model",
        ConfigKey::AiBaseUrl => "ai_base_url",
        ConfigKey::AiTemperature => "ai_temperature",
        ConfigKey::AiApiKey => "ai_api_key",
        ConfigKey::AiAutoTag => "ai_auto_tag",
        ConfigKey::AiAutoSummary => "ai_auto_summary",
        ConfigKey::AiTranslation => "ai_translation",
        ConfigKey::AiWebSearch => "ai_web_search",
        ConfigKey::SensitiveFilter => "sensitive_filter",
        ConfigKey::FilterPasswords => "filter_passwords",
        ConfigKey::FilterBankCards => "filter_bank_cards",
        ConfigKey::FilterIdCards => "filter_id_cards",
        ConfigKey::FilterPhoneNumbers => "filter_phone_numbers",
        ConfigKey::StoragePath => "storage_path",
        ConfigKey::AutoBackup => "auto_backup",
        ConfigKey::BackupFrequency => "backup_frequency",
        ConfigKey::LastBackupPath => "last_backup_path",
        ConfigKey::CloudSyncEnabled => "cloud_sync_enabled",
        ConfigKey::SyncFrequency => "sync_frequency",
        ConfigKey::SyncContentType => "sync_content_type",
        ConfigKey::EncryptCloudData => "encrypt_cloud_data",
        ConfigKey::SyncOnlyWifi => "sync_only_wifi",
        ConfigKey::Username => "username",
        ConfigKey::Email => "email",
        ConfigKey::Bio => "bio",
        ConfigKey::AvatarPath => "avatar_path",
        ConfigKey::OcrProvider => "ocr_provider",
        ConfigKey::OcrLanguages => "ocr_languages",
        ConfigKey::OcrConfidenceThreshold => "ocr_confidence_threshold",
        ConfigKey::OcrTimeoutSecs => "ocr_timeout_secs",
    }
}

/// The shape of the value a setting holds.
pub open spec fn spec_key_kind(k: ConfigKey) -> ValueKind {
    match k {
        ConfigKey::Autostart => ValueKind::Bool,
        ConfigKey::TrayIconVisible => ValueKind::Bool,
        ConfigKey::MinimizeToTray => ValueKind::Bool,
        ConfigKey::AutoSave => ValueKind::Bool,
        ConfigKey::RetentionDays => ValueKind::U32,
        ConfigKey::GlobalShortcut => ValueKind::Text,
        ConfigKey::GlobalShortcut2 => ValueKind::Text,
        ConfigKey::GlobalShortcut3 => ValueKind::Text,
        ConfigKey::GlobalShortcut4 => ValueKind::Text,
        ConfigKey::GlobalShortcut5 => ValueKind::Text,
        ConfigKey::MaxHistoryItems => ValueKind::U32,
        ConfigKey::IgnoreShortTextLen => ValueKind::U32,
        ConfigKey::IgnoreBigFileMb => ValueKind::U32,
        ConfigKey::IgnoredApps => ValueKind::TextList,
        ConfigKey::AutoClassify => ValueKind::Bool,
        ConfigKey::OcrAutoRecognition => ValueKind::Bool,
        ConfigKey::DeleteConfirmation => ValueKind::Bool,
        ConfigKey::KeepFavoritesOnDelete => ValueKind::Bool,
        ConfigKey::AutoSort => ValueKind::Bool,
        ConfigKey::AiEnabled => ValueKind::Bool,
        ConfigKey::AiProvider => ValueKind::Text,
        ConfigKey::AiModel => ValueKind::Text,
        ConfigKey::AiBaseUrl => ValueKind::OptText,
        ConfigKey::AiTemperature => ValueKind::Float,
        ConfigKey::AiApiKey => ValueKind::OptText,
        ConfigKey::AiAutoTag => ValueKind::Bool,
        ConfigKey::AiAutoSummary => ValueKind::Bool,
        ConfigKey::AiTranslation => ValueKind::Bool,
        ConfigKey::AiWebSearch => ValueKind::Bool,
        ConfigKey::SensitiveFilter => ValueKind::Bool,
        ConfigKey::FilterPasswords => ValueKind::Bool,
        ConfigKey::FilterBankCards => ValueKind::Bool,
        ConfigKey::FilterIdCards => ValueKind::Bool,
        ConfigKey::FilterPhoneNumbers => ValueKind::Bool,
        ConfigKey::StoragePath => ValueKind::OptText,
        ConfigKey::AutoBackup => ValueKind::Bool,
        ConfigKey::BackupFrequency => ValueKind::Text,
        ConfigKey::LastBackupPath => ValueKind::OptText,
        ConfigKey::CloudSyncEnabled => ValueKind::Bool,
        ConfigKey::SyncFrequency => ValueKind::Text,
        ConfigKey::SyncContentType => ValueKind::Text,
        ConfigKey::EncryptCloudData => ValueKind::Bool,
        ConfigKey::SyncOnlyWifi => ValueKind::Bool,
        ConfigKey::Username => ValueKind::OptText,
        ConfigKey::Email => ValueKind::OptText,
        ConfigKey::Bio => ValueKind::OptText,
        ConfigKey::AvatarPath => ValueKind::OptText,
        ConfigKey::OcrProvider => ValueKind::OptText,
        ConfigKey::OcrLanguages => ValueKind::OptTextList,
        ConfigKey::OcrConfidenceThreshold => ValueKind::OptFloat,
        ConfigKey::OcrTimeoutSecs => ValueKind::OptU64,
    }
}

/// The shape of the value a setting holds.
pub fn config_key_kind(k: &ConfigKey) -> (res: ValueKind)
    ensures
        res == spec_key_kind(*k),
{
    match k {
        ConfigKey::Autostart => ValueKind::Bool,
        ConfigKey::TrayIconVisible => ValueKind::Bool,
        ConfigKey::MinimizeToTray => ValueKind::Bool,
        ConfigKey::AutoSave => ValueKind::Bool,
        ConfigKey::RetentionDays => ValueKind::U32,
        ConfigKey::GlobalShortcut => ValueKind::Text,
        ConfigKey::GlobalShortcut2 => ValueKind::Text,
        ConfigKey::GlobalShortcut3 => ValueKind::Text,
        ConfigKey::GlobalShortcut4 => ValueKind::Text,
        ConfigKey::GlobalShortcut5 => ValueKind::Text,
        ConfigKey::MaxHistoryItems => ValueKind::U32,
        ConfigKey::IgnoreShortTextLen => ValueKind::U32,
        ConfigKey::IgnoreBigFileMb => ValueKind::U32,
        ConfigKey::IgnoredApps => ValueKind::TextList,
        ConfigKey::AutoClassify => ValueKind::Bool,
        ConfigKey::OcrAutoRecognition => ValueKind::Bool,
        ConfigKey::DeleteConfirmation => ValueKind::Bool,
        ConfigKey::KeepFavoritesOnDelete => ValueKind::Bool,
        ConfigKey::AutoSort => ValueKind::Bool,
        ConfigKey::AiEnabled => ValueKind::Bool,
        ConfigKey::AiProvider => ValueKind::Text,
        ConfigKey::AiModel => ValueKind::Text,
        ConfigKey::AiBaseUrl => ValueKind::OptText,
        ConfigKey::AiTemperature => ValueKind::Float,
        ConfigKey::AiApiKey => ValueKind::OptText,
        ConfigKey::AiAutoTag => ValueKind::Bool,
        ConfigKey::AiAutoSummary => ValueKind::Bool,
        ConfigKey::AiTranslation => ValueKind::Bool,
        ConfigKey::AiWebSearch => ValueKind::Bool,
        ConfigKey::SensitiveFilter => ValueKind::Bool,
        ConfigKey::FilterPasswords => ValueKind::Bool,
        ConfigKey::FilterBankCards => ValueKind::Bool,
        ConfigKey::FilterIdCards => ValueKind::Bool,
        ConfigKey::FilterPhoneNumbers => ValueKind::Bool,
        ConfigKey::StoragePath => ValueKind::OptText,
        ConfigKey::AutoBackup => ValueKind::Bool,
        ConfigKey::BackupFrequency => ValueKind::Text,
        ConfigKey::LastBackupPath => ValueKind::OptText,
        ConfigKey::CloudSyncEnabled => ValueKind::Bool,
        ConfigKey::SyncFrequency => ValueKind::Text,
        ConfigKey::SyncContentType => ValueKind::Text,
        ConfigKey::EncryptCloudData => ValueKind::Bool,
        ConfigKey::SyncOnlyWifi => ValueKind::Bool,
        ConfigKey::Username => ValueKind::OptText,
        ConfigKey::Email => ValueKind::OptText,
        ConfigKey::Bio => ValueKind::OptText,
        ConfigKey::AvatarPath => ValueKind::OptText,
        ConfigKey::OcrProvider => ValueKind::OptText,
        ConfigKey::OcrLanguages => ValueKind::OptTextList,
        ConfigKey::OcrConfidenceThreshold => ValueKind::OptFloat,
        ConfigKey::OcrTimeoutSecs => ValueKind::OptU64,
    }
}

/// Looks a setting up by its name; names are matched exactly, case included.
pub fn parse_config_key(key: &str) -> (res: Option<ConfigKey>)
    ensures
        res matches Some(k) ==> spec_key_name(k) == key@,
        res is None ==> forall|k: ConfigKey| #[trigger] spec_key_name(k) != key@,
{
    if str_eq(key, "autostart") {
        return Some(ConfigKey::Autostart);
    }
    if str_eq(key, "tray_icon_visible") {
        return Some(ConfigKey::TrayIconVisible);
    }
    if str_eq(key, "minimize_to_tray") {
        return Some(ConfigKey::MinimizeToTray);
    }
    if str_eq(key, "auto_save") {
        return Some(ConfigKey::AutoSave);
    }
    if str_eq(key, "retention_days") {
        return Some(ConfigKey::RetentionDays);
    }
    if str_eq(key, "global_shortcut") {
        return Some(ConfigKey::GlobalShortcut);
    }
    if str_eq(key, "global_shortcut_2") {
        return Some(ConfigKey::GlobalShortcut2);
    }
    if str_eq(key, "global_shortcut_3") {
        return Some(ConfigKey::GlobalShortcut3);
    }
    if str_eq(key, "global_shortcut_4") {
        return Some(ConfigKey::GlobalShortcut4);
    }
    if str_eq(key, "global_shortcut_5") {
        return Some(ConfigKey::GlobalShortcut5);
    }
    if str_eq(key, "max_history_items") {
        return Some(ConfigKey::MaxHistoryItems);
    }
    if str_eq(key, "ignore_short_text_len") {
        return Some(ConfigKey::IgnoreShortTextLen);
    }
    if str_eq(key, "ignore_big_file_mb") {
        return Some(ConfigKey::IgnoreBigFileMb);
    }
    if str_eq(key, "ignored_apps") {
        return Some(ConfigKey::IgnoredApps);
    }
    if str_eq(key, "auto_classify") {
        return Some(ConfigKey::AutoClassify);
    }
    if str_eq(key, "ocr_auto_recognition") {
        return Some(ConfigKey::OcrAutoRecognition);
    }
    if str_eq(key, "delete_confirmation") {
        return Some(ConfigKey::DeleteConfirmation);
    }
    if str_eq(key, "keep_favorites_on_delete") {
        return Some(ConfigKey::KeepFavoritesOnDelete);
    }
    if str_eq(key, "auto_sort") {
        return Some(ConfigKey::AutoSort);
    }
    if str_eq(key, "ai_enabled") {
        return Some(ConfigKey::AiEnabled);
    }
    if str_eq(key, "ai_provider") {
        return Some(ConfigKey::AiProvider);
    }
    if str_eq(key, "ai_model") {
        return Some(ConfigKey::AiModel);
    }
    if str_eq(key, "ai_base_url") {
        return Some(ConfigKey::AiBaseUrl);
    }
    if str_eq(key, "ai_temperature") {
        return Some(ConfigKey::AiTemperature);
    }
    if str_eq(key, "ai_api_key") {
        return Some(ConfigKey::AiApiKey);
    }
    if str_eq(key, "ai_auto_tag") {
        return Some(ConfigKey::AiAutoTag);
    }
    if str_eq(key, "ai_auto_summary") {
        return Some(ConfigKey::AiAutoSummary);
    }
    if str_eq(key, "ai_translation") {
        return Some(ConfigKey::AiTranslation);
    }
    if str_eq(key, "ai_web_search") {
        return Some(ConfigKey::AiWebSearch);
    }
    if str_eq(key, "sensitive_filter") {
        return Some(ConfigKey::SensitiveFilter);
    }
    if str_eq(key, "filter_passwords") {
        return Some(ConfigKey::FilterPasswords);
    }
    if str_eq(key, "filter_bank_cards") {
        return Some(ConfigKey::FilterBankCards);
    }
    if str_eq(key, "filter_id_cards") {
        return Some(ConfigKey::FilterIdCards);
    }
    if str_eq(key, "filter_phone_numbers") {
        return Some(ConfigKey::FilterPhoneNumbers);
    }
    if str_eq(key, "storage_path") {
        return Some(ConfigKey::StoragePath);
    }
    if str_eq(key, "auto_backup") {
        return Some(ConfigKey::AutoBackup);
    }
    if str_eq(key, "backup_frequency") {
        return Some(ConfigKey::BackupFrequency);
    }
    if str_eq(key, "last_backup_path") {
        return Some(ConfigKey::LastBackupPath);
    }
    if str_eq(key, "cloud_sync_enabled") {
        return Some(ConfigKey::CloudSyncEnabled);
    }
    if str_eq(key, "sync_frequency") {
        return Some(ConfigKey::SyncFrequency);
    }
    if str_eq(key, "sync_content_type") {
        return Some(ConfigKey::SyncContentType);
    }
    if str_eq(key, "encrypt_cloud_data") {
        return Some(ConfigKey::EncryptCloudData);
    }
    if str_eq(key, "sync_only_wifi") {
        return Some(ConfigKey::SyncOnlyWifi);
    }
    if str_eq(key, "username") {
        return Some(ConfigKey::Username);
    }
    if str_eq(key, "email") {
        return Some(ConfigKey::Email);
    }
    if str_eq(key, "bio") {
        return Some(ConfigKey::Bio);
    }
    if str_eq(key, "avatar_path") {
        return Some(ConfigKey::AvatarPath);
    }
    if str_eq(key, "ocr_provider") {
        return Some(ConfigKey::OcrProvider);
    }
    if str_eq(key, "ocr_languages") {
        return Some(ConfigKey::OcrLanguages);
    }
    if str_eq(key, "ocr_confidence_threshold") {
        return Some(ConfigKey::OcrConfidenceThreshold);
    }
    if str_eq(key, "ocr_timeout_secs") {
        return Some(ConfigKey::OcrTimeoutSecs);
    }
    None
}

/// All settings of the application.
#[derive(Debug, Clone, PartialEq)]
pub struct Config {
    pub autostart: bool,
    pub tray_icon_visible: bool,
    pub minimize_to_tray: bool,
    pub auto_save: bool,
    pub retention_days: u32,
    pub global_shortcut: String,
    pub global_shortcut_2: String,
    pub global_shortcut_3: String,
    pub global_shortcut_4: String,
    pub global_shortcut_5: String,
    pub max_history_items: u32,
    pub ignore_short_text_len: u32,
    pub ignore_big_file_mb: u32,
    pub ignored_apps: Vec<String>,
    pub auto_classify: bool,
    pub ocr_auto_recognition: bool,
    pub delete_confirmation: bool,
    pub keep_favorites_on_delete: bool,
    pub auto_sort: bool,
    pub ai_enabled: bool,
    pub ai_provider: String,
    pub ai_model: String,
    pub ai_base_url: Option<String>,
    /// The IEEE 754 bit pattern of the `f32` setting.
    pub ai_temperature_bits: u32,
    pub ai_api_key: Option<String>,
    pub ai_auto_tag: bool,
    pub ai_auto_summary: bool,
    pub ai_translation: bool,
    pub ai_web_search: bool,
    pub sensitive_filter: bool,
    pub filter_passwords: bool,
    pub filter_bank_cards: bool,
    pub filter_id_cards: bool,
    pub filter_phone_numbers: bool,
    pub storage_path: Option<String>,
    pub auto_backup: bool,
    pub backup_frequency: String,
    pub last_backup_path: Option<String>,
    pub cloud_sync_enabled: bool,
    pub sync_frequency: String,
    pub sync_content_type: String,
    pub encrypt_cloud_data: bool,
    pub sync_only_wifi: bool,
    pub username: Option<String>,
    pub email: Option<String>,
    pub bio: Option<String>,
    pub avatar_path: Option<String>,
    pub ocr_provider: Option<String>,
    pub ocr_languages: Option<Vec<String>>,
    /// The IEEE 754 bit pattern of the optional `f32` setting.
    pub ocr_confidence_threshold_bits: Option<u32>,
    pub ocr_timeout_secs: Option<u64>,
}

/// The settings a new installation starts with.
pub open spec fn spec_is_default_config(c: Config) -> bool {
    &&& c.autostart == false
    &&& c.tray_icon_visible == true
    &&& c.minimize_to_tray == false
    &&& c.auto_save == true
    &&& c.retention_days == 30
    &&& c.global_shortcut@ == "Shift+V"@
    &&& c.global_shortcut_2@ == "Shift+Alt+C"@
    &&& c.global_shortcut_3@ == "Shift+Alt+A"@
    &&& c.global_shortcut_4@ == "Shift+Ctrl+V"@
    &&& c.global_shortcut_5@ == "Shift+Ctrl+Delete"@
    &&& c.max_history_items == 500
    &&& c.ignore_short_text_len == 0
    &&& c.ignore_big_file_mb == 5
    &&& c.ignored_apps@.len() == 0
    &&& c.auto_classify == true
    &&& c.ocr_auto_recognition == false
    &&& c.delete_confirmation == true
    &&& c.keep_favorites_on_delete == true
    &&& c.auto_sort == false
    &&& c.ai_enabled == false
    &&& c.ai_provider@ == "default"@
    &&& c.ai_model@ == ""@
    &&& c.ai_base_url is None
    &&& c.ai_temperature_bits == 0x3f33_3333
    &&& c.ai_api_key is None
    &&& c.ai_auto_tag == false
    &&& c.ai_auto_summary == false
    &&& c.ai_translation == false
    &&& c.ai_web_search == false
    &&& c.sensitive_filter == true
    &&& c.filter_passwords == true
    &&& c.filter_bank_cards == true
    &&& c.filter_id_cards == true
    &&& c.filter_phone_numbers == true
    &&& c.storage_path is None
    &&& c.auto_backup == false
    &&& c.backup_frequency@ == "weekly"@
    &&& c.last_backup_path is None
    &&& c.cloud_sync_enabled == false
    &&& c.sync_frequency@ == "5min"@
    &&& c.sync_content_type@ == "onlytxt"@
    &&& c.encrypt_cloud_data == false
    &&& c.sync_only_wifi == true
    &&& c.username is None
    &&& c.email is None
    &&& c.bio is None
    &&& c.avatar_path is None
    &&& c.ocr_provider is None
    &&& c.ocr_languages is None
    &&& c.ocr_confidence_threshold_bits is None
    &&& c.ocr_timeout_secs is None
}

/// The settings a new installation starts with (the temperature's bit pattern is
/// that of 0.7).
pub fn default_config() -> (res: Config)
    ensures
        spec_is_default_config(res),
{
    Config {
        autostart: false,
        tray_icon_visible: true,
        minimize_to_tray: false,
        auto_save: true,
        retention_days: 30,
        global_shortcut: "Shift+V".to_string(),
        global_shortcut_2: "Shift+Alt+C".to_string(),
        global_shortcut_3: "Shift+Alt+A".to_string(),
        global_shortcut_4: "Shift+Ctrl+V".to_string(),
        global_shortcut_5: "Shift+Ctrl+Delete".to_string(),
        max_history_items: 500,
        ignore_short_text_len: 0,
        ignore_big_file_mb: 5,
        ignored_apps: Vec::new(),
        auto_classify: true,
        ocr_auto_recognition: false,
        delete_confirmation: true,
        keep_favorites_on_delete: true,
        auto_sort: false,
        ai_enabled: false,
        ai_provider: "default".to_string(),
        ai_model: "".to_string(),
        ai_base_url: None,
        ai_temperature_bits: 0x3f33_3333,
        ai_api_key: None,
        ai_auto_tag: false,
        ai_auto_summary: false,
        ai_translation: false,
        ai_web_search: false,
        sensitive_filter: true,
        filter_passwords: true,
        filter_bank_cards: true,
        filter_id_cards: true,
        filter_phone_numbers: true,
        storage_path: None,
        auto_backup: false,
        backup_frequency: "weekly".to_string(),
        last_backup_path: None,
        cloud_sync_enabled: false,
        sync_frequency: "5min".to_string(),
        sync_content_type: "onlytxt".to_string(),
        encrypt_cloud_data: false,
        sync_only_wifi: true,
        username: None,
        email: None,
        bio: None,
        avatar_path: None,
        ocr_provider: None,
        ocr_languages: None,
        ocr_confidence_threshold_bits: None,
        ocr_timeout_secs: None,
    }
}

impl Default for Config {
    fn default() -> (res: Self)
        ensures
            spec_is_default_config(res),
    {
        default_config()
    }
}

/// The shortcut `global_shortcut` holds when the settings file does not name one.
pub fn default_shortcut() -> (res: String)
    ensures
        res@ == "Shift+V"@,
{
    "Shift+V".to_string()
}

/// The shortcut `global_shortcut_2` holds when the settings file does not name one.
pub fn default_shortcut_2() -> (res: String)
    ensures
        res@ == "Shift+Alt+C"@,
{
    "Shift+Alt+C".to_string()
}

/// The shortcut `global_shortcut_3` holds when the settings file does not name one.
pub fn default_shortcut_3() -> (res: String)
    ensures
        res@ == "Shift+Alt+A"@,
{
    "Shift+Alt+A".to_string()
}

/// The shortcut `global_shortcut_4` holds when the settings file does not name one.
pub fn default_shortcut_4() -> (res: String)
    ensures
        res@ == "Shift+Ctrl+V"@,
{
    "Shift+Ctrl+V".to_string()
}

/// The shortcut `global_shortcut_5` holds when the settings file does not name one.
pub fn default_shortcut_5() -> (res: String)
    ensures
        res@ == "Shift+Ctrl+Delete"@,
{
    "Shift+Ctrl+Delete".to_string()
}

/// The value the setting `k` holds in `c`.
pub open spec fn spec_value_of(c: Config, k: ConfigKey) -> ConfigValue {
    match k {
        ConfigKey::Autostart => ConfigValue::Bool(c.autostart),
        ConfigKey::TrayIconVisible => ConfigValue::Bool(c.tray_icon_visible),
        ConfigKey::MinimizeToTray => ConfigValue::Bool(c.minimize_to_tray),
        ConfigKey::AutoSave => ConfigValue::Bool(c.auto_save),
        ConfigKey::RetentionDays => ConfigValue::U32(c.retention_days),
        ConfigKey::GlobalShortcut => ConfigValue::Text(c.global_shortcut),
        ConfigKey::GlobalShortcut2 => ConfigValue::Text(c.global_shortcut_2),
        ConfigKey::GlobalShortcut3 => ConfigValue::Text(c.global_shortcut_3),
        ConfigKey::GlobalShortcut4 => ConfigValue::Text(c.global_shortcut_4),
        ConfigKey::GlobalShortcut5 => ConfigValue::Text(c.global_shortcut_5),
        ConfigKey::MaxHistoryItems => ConfigValue::U32(c.max_history_items),
        ConfigKey::IgnoreShortTextLen => ConfigValue::U32(c.ignore_short_text_len),
        ConfigKey::IgnoreBigFileMb => ConfigValue::U32(c.ignore_big_file_mb),
        ConfigKey::IgnoredApps => ConfigValue::TextList(c.ignored_apps),
        ConfigKey::AutoClassify => ConfigValue::Bool(c.auto_classify),
        ConfigKey::OcrAutoRecognition => ConfigValue::Bool(c.ocr_auto_recognition),
        ConfigKey::DeleteConfirmation => ConfigValue::Bool(c.delete_confirmation),
        ConfigKey::KeepFavoritesOnDelete => ConfigValue::Bool(c.keep_favorites_on_delete),
        ConfigKey::AutoSort => ConfigValue::Bool(c.auto_sort),
        ConfigKey::AiEnabled => ConfigValue::Bool(c.ai_enabled),
        ConfigKey::AiProvider => ConfigValue::Text(c.ai_provider),
        ConfigKey::AiModel => ConfigValue::Text(c.ai_model),
        ConfigKey::AiBaseUrl => ConfigValue::OptText(c.ai_base_url),
        ConfigKey::AiTemperature => ConfigValue::Float(c.ai_temperature_bits),
        ConfigKey::AiApiKey => ConfigValue::OptText(c.ai_api_key),
        ConfigKey::AiAutoTag => ConfigValue::Bool(c.ai_auto_tag),
        ConfigKey::AiAutoSummary => ConfigValue::Bool(c.ai_auto_summary),
        ConfigKey::AiTranslation => ConfigValue::Bool(c.ai_translation),
        ConfigKey::AiWebSearch => ConfigValue::Bool(c.ai_web_search),
        ConfigKey::SensitiveFilter => ConfigValue::Bool(c.sensitive_filter),
        ConfigKey::FilterPasswords => ConfigValue::Bool(c.filter_passwords),
        ConfigKey::FilterBankCards => ConfigValue::Bool(c.filter_bank_cards),
        ConfigKey::FilterIdCards => ConfigValue::Bool(c.filter_id_cards),
        ConfigKey::FilterPhoneNumbers => ConfigValue::Bool(c.filter_phone_numbers),
        ConfigKey::StoragePath => ConfigValue::OptText(c.storage_path),
        ConfigKey::AutoBackup => ConfigValue::Bool(c.auto_backup),
        ConfigKey::BackupFrequency => ConfigValue::Text(c.backup_frequency),
        ConfigKey::LastBackupPath => ConfigValue::OptText(c.last_backup_path),
        ConfigKey::CloudSyncEnabled => ConfigValue::Bool(c.cloud_sync_enabled),
        ConfigKey::SyncFrequency => ConfigValue::Text(c.sync_frequency),
        ConfigKey::SyncContentType => ConfigValue::Text(c.sync_content_type),
        ConfigKey::EncryptCloudData => ConfigValue::Bool(c.encrypt_cloud_data),
        ConfigKey::SyncOnlyWifi => ConfigValue::Bool(c.sync_only_wifi),
        ConfigKey::Username => ConfigValue::OptText(c.username),
        ConfigKey::Email => ConfigValue::OptText(c.email),
        ConfigKey::Bio => ConfigValue::OptText(c.bio),
        ConfigKey::AvatarPath => ConfigValue::OptText(c.avatar_path),
        ConfigKey::OcrProvider => ConfigValue::OptText(c.ocr_provider),
        ConfigKey::OcrLanguages => ConfigValue::OptTextList(c.ocr_languages),
        ConfigKey::OcrConfidenceThreshold => ConfigValue::OptFloat(c.ocr_confidence_threshold_bits),
        ConfigKey::OcrTimeoutSecs => ConfigValue::OptU64(c.ocr_timeout_secs),
    }
}


/// `c` with `autostart` set to `x`.
pub open spec fn with_autostart(c: Config, x: bool) -> Config {
    Config { autostart: x, ..c }
}

/// `c` with `tray_icon_visible` set to `x`.
pub open spec fn with_tray_icon_visible(c: Config, x: bool) -> Config {
    Config { tray_icon_visible: x, ..c }
}

/// `c` with `minimize_to_tray` set to `x`.
pub open spec fn with_minimize_to_tray(c: Config, x: bool) -> Config {
    Config { minimize_to_tray: x, ..c }
}

/// `c` with `auto_save` set to `x`.
pub open spec fn with_auto_save(c: Config, x: bool) -> Config {
    Config { auto_save: x, ..c }
}

/// `c` with `retention_days` set to `x`.
pub open spec fn with_retention_days(c: Config, x: u32) -> Config {
    Config { retention_days: x, ..c }
}

/// `c` with `global_shortcut` set to `x`.
pub open spec fn with_global_shortcut(c: Config, x: String) -> Config {
    Config { global_shortcut: x, ..c }
}

/// `c` with `global_shortcut_2` set to `x`.
pub open spec fn with_global_shortcut_2(c: Config, x: String) -> Config {
    Config { global_shortcut_2: x, ..c }
}

/// `c` with `global_shortcut_3` set to `x`.
pub open spec fn with_global_shortcut_3(c: Config, x: String) -> Config {
    Config { global_shortcut_3: x, ..c }
}

/// `c` with `global_shortcut_4` set to `x`.
pub open spec fn with_global_shortcut_4(c: Config, x: String) -> Config {
    Config { global_shortcut_4: x, ..c }
}

/// `c` with `global_shortcut_5` set to `x`.
pub open spec fn with_global_shortcut_5(c: Config, x: String) -> Config {
    Config { global_shortcut_5: x, ..c }
}

/// `c` with `max_history_items` set to `x`.
pub open spec fn with_max_history_items(c: Config, x: u32) -> Config {
    Config { max_history_items: x, ..c }
}

/// `c` with `ignore_short_text_len` set to `x`.
pub open spec fn with_ignore_short_text_len(c: Config, x: u32) -> Config {
    Config { ignore_short_text_len: x, ..c }
}

/// `c` with `ignore_big_file_mb` set to `x`.
pub open spec fn with_ignore_big_file_mb(c: Config, x: u32) -> Config {
    Config { ignore_big_file_mb: x, ..c }
}

/// `c` with `ignored_apps` set to `x`.
pub open spec fn with_ignored_apps(c: Config, x: Vec<String>) -> Config {
    Config { ignored_apps: x, ..c }
}

/// `c` with `auto_classify` set to `x`.
pub open spec fn with_auto_classify(c: Config, x: bool) -> Config {
    Config { auto_classify: x, ..c }
}

/// `c` with `ocr_auto_recognition` set to `x`.
pub open spec fn with_ocr_auto_recognition(c: Config, x: bool) -> Config {
    Config { ocr_auto_recognition: x, ..c }
}

/// `c` with `delete_confirmation` set to `x`.
pub open spec fn with_delete_confirmation(c: Config, x: bool) -> Config {
    Config { delete_confirmation: x, ..c }
}

/// `c` with `keep_favorites_on_delete` set to `x`.
pub open spec fn with_keep_favorites_on_delete(c: Config, x: bool) -> Config {
    Config { keep_favorites_on_delete: x, ..c }
}

/// `c` with `auto_sort` set to `x`.
pub open spec fn with_auto_sort(c: Config, x: bool) -> Config {
    Config { auto_sort: x, ..c }
}

/// `c` with `ai_enabled` set to `x`.
pub open spec fn with_ai_enabled(c: Config, x: bool) -> Config {
    Config { ai_enabled: x, ..c }
}

/// `c` with `ai_provider` set to `x`.
pub open spec fn with_ai_provider(c: Config, x: String) -> Config {
    Config { ai_provider: x, ..c }
}

/// `c` with `ai_model` set to `x`.
pub open spec fn with_ai_model(c: Config, x: String) -> Config {
    Config { ai_model: x, ..c }
}

/// `c` with `ai_base_url` set to `x`.
pub open spec fn with_ai_base_url(c: Config, x: Option<String>) -> Config {
    Config { ai_base_url: x, ..c }
}

/// `c` with `ai_temperature` set to `x`.
pub open spec fn with_ai_temperature(c: Config, x: u32) -> Config {
    Config { ai_temperature_bits: x, ..c }
}

/// `c` with `ai_api_key` set to `x`.
pub open spec fn with_ai_api_key(c: Config, x: Option<String>) -> Config {
    Config { ai_api_key: x, ..c }
}

/// `c` with `ai_auto_tag` set to `x`.
pub open spec fn with_ai_auto_tag(c: Config, x: bool) -> Config {
    Config { ai_auto_tag: x, ..c }
}

/// `c` with `ai_auto_summary` set to `x`.
pub open spec fn with_ai_auto_summary(c: Config, x: bool) -> Config {
    Config { ai_auto_summary: x, ..c }
}

/// `c` with `ai_translation` set to `x`.
pub open spec fn with_ai_translation(c: Config, x: bool) -> Config {
    Config { ai_translation: x, ..c }
}

/// `c` with `ai_web_search` set to `x`.
pub open spec fn with_ai_web_search(c: Config, x: bool) -> Config {
    Config { ai_web_search: x, ..c }
}

/// `c` with `sensitive_filter` set to `x`.
pub open spec fn with_sensitive_filter(c: Config, x: bool) -> Config {
    Config { sensitive_filter: x, ..c }
}

/// `c` with `filter_passwords` set to `x`.
pub open spec fn with_filter_passwords(c: Config, x: bool) -> Config {
    Config { filter_passwords: x, ..c }
}

/// `c` with `filter_bank_cards` set to `x`.
pub open spec fn with_filter_bank_cards(c: Config, x: bool) -> Config {
    Config { filter_bank_cards: x, ..c }
}

/// `c` with `filter_id_cards` set to `x`.
pub open spec fn with_filter_id_cards(c: Config, x: bool) -> Config {
    Config { filter_id_cards: x, ..c }
}

/// `c` with `filter_phone_numbers` set to `x`.
pub open spec fn with_filter_phone_numbers(c: Config, x: bool) -> Config {
    Config { filter_phone_numbers: x, ..c }
}

/// `c` with `storage_path` set to `x`.
pub open spec fn with_storage_path(c: Config, x: Option<String>) -> Config {
    Config { storage_path: x, ..c }
}

/// `c` with `auto_backup` set to `x`.
pub open spec fn with_auto_backup(c: Config, x: bool) -> Config {
    Config { auto_backup: x, ..c }
}

/// `c` with `backup_frequency` set to `x`.
pub open spec fn with_backup_frequency(c: Config, x: String) -> Config {
    Config { backup_frequency: x, ..c }
}

/// `c` with `last_backup_path` set to `x`.
pub open spec fn with_last_backup_path(c: Config, x: Option<String>) -> Config {
    Config { last_backup_path: x, ..c }
}

/// `c` with `cloud_sync_enabled` set to `x`.
pub open spec fn with_cloud_sync_enabled(c: Config, x: bool) -> Config {
    Config { cloud_sync_enabled: x, ..c }
}

/// `c` with `sync_frequency` set to `x`.
pub open spec fn with_sync_frequency(c: Config, x: String) -> Config {
    Config { sync_frequency: x, ..c }
}

/// `c` with `sync_content_type` set to `x`.
pub open spec fn with_sync_content_type(c: Config, x: String) -> Config {
    Config { sync_content_type: x, ..c }
}

/// `c` with `encrypt_cloud_data` set to `x`.
pub open spec fn with_encrypt_cloud_data(c: Config, x: bool) -> Config {
    Config { encrypt_cloud_data: x, ..c }
}

/// `c` with `sync_only_wifi` set to `x`.
pub open spec fn with_sync_only_wifi(c: Config, x: bool) -> Config {
    Config { sync_only_wifi: x, ..c }
}

/// `c` with `username` set to `x`.
pub open spec fn with_username(c: Config, x: Option<String>) -> Config {
    Config { username: x, ..c }
}

/// `c` with `email` set to `x`.
pub open spec fn with_email(c: Config, x: Option<String>) -> Config {
    Config { email: x, ..c }
}

/// `c` with `bio` set to `x`.
pub open spec fn with_bio(c: Config, x: Option<String>) -> Config {
    Config { bio: x, ..c }
}

/// `c` with `avatar_path` set to `x`.
pub open spec fn with_avatar_path(c: Config, x: Option<String>) -> Config {
    Config { avatar_path: x, ..c }
}

/// `c` with `ocr_provider` set to `x`.
pub open spec fn with_ocr_provider(c: Config, x: Option<String>) -> Config {
    Config { ocr_provider: x, ..c }
}

/// `c` with `ocr_languages` set to `x`.
pub open spec fn with_ocr_languages(c: Config, x: Option<Vec<String>>) -> Config {
    Config { ocr_languages: x, ..c }
}

/// `c` with `ocr_confidence_threshold` set to `x`.
pub open spec fn with_ocr_confidence_threshold(c: Config, x: Option<u32>) -> Config {
    Config { ocr_confidence_threshold_bits: x, ..c }
}

/// `c` with `ocr_timeout_secs` set to `x`.
pub open spec fn with_ocr_timeout_secs(c: Config, x: Option<u64>) -> Config {
    Config { ocr_timeout_secs: x, ..c }
}

/// `c` with the setting `k` holding `v`; `c` itself where `v` has another shape than `k`'s.
pub open spec fn spec_with_value(c: Config, k: ConfigKey, v: ConfigValue) -> Config {
    match k {
        ConfigKey::Autostart => match v {
            ConfigValue::Bool(x) => with_autostart(c, x),
            _ => c,
        },
        ConfigKey::TrayIconVisible => match v {
            ConfigValue::Bool(x) => with_tray_icon_visible(c, x),
            _ => c,
        },
        ConfigKey::MinimizeToTray => match v {
            ConfigValue::Bool(x) => with_minimize_to_tray(c, x),
            _ => c,
        },
        ConfigKey::AutoSave => match v {
            ConfigValue::Bool(x) => with_auto_save(c, x),
            _ => c,
        },
        ConfigKey::RetentionDays => match v {
            ConfigValue::U32(x) => with_retention_days(c, x),
            _ => c,
        },
        ConfigKey::GlobalShortcut => match v {
            ConfigValue::Text(x) => with_global_shortcut(c, x),
            _ => c,
        },
        ConfigKey::GlobalShortcut2 => match v {
            ConfigValue::Text(x) => with_global_shortcut_2(c, x),
            _ => c,
        },
        ConfigKey::GlobalShortcut3 => match v {
            ConfigValue::Text(x) => with_global_shortcut_3(c, x),
            _ => c,
        },
        ConfigKey::GlobalShortcut4 => match v {
            ConfigValue::Text(x) => with_global_shortcut_4(c, x),
            _ => c,
        },
        ConfigKey::GlobalShortcut5 => match v {
            ConfigValue::Text(x) => with_global_shortcut_5(c, x),
            _ => c,
        },
        ConfigKey::MaxHistoryItems => match v {
            ConfigValue::U32(x) => with_max_history_items(c, x),
            _ => c,
        },
        ConfigKey::IgnoreShortTextLen => match v {
            ConfigValue::U32(x) => with_ignore_short_text_len(c, x),
            _ => c,
        },
        ConfigKey::IgnoreBigFileMb => match v {
            ConfigValue::U32(x) => with_ignore_big_file_mb(c, x),
            _ => c,
        },
        ConfigKey::IgnoredApps => match v {
            ConfigValue::TextList(x) => with_ignored_apps(c, x),
            _ => c,
        },
        ConfigKey::AutoClassify => match v {
            ConfigValue::Bool(x) => with_auto_classify(c, x),
            _ => c,
        },
        ConfigKey::OcrAutoRecognition => match v {
            ConfigValue::Bool(x) => with_ocr_auto_recognition(c, x),
            _ => c,
        },
        ConfigKey::DeleteConfirmation => match v {
            ConfigValue::Bool(x) => with_delete_confirmation(c, x),
            _ => c,
        },
        ConfigKey::KeepFavoritesOnDelete => match v {
            ConfigValue::Bool(x) => with_keep_favorites_on_delete(c, x),
            _ => c,
        },
        ConfigKey::AutoSort => match v {
            ConfigValue::Bool(x) => with_auto_sort(c, x),
            _ => c,
        },
        ConfigKey::AiEnabled => match v {
            ConfigValue::Bool(x) => with_ai_enabled(c, x),
            _ => c,
        },
        ConfigKey::AiProvider => match v {
            ConfigValue::Text(x) => with_ai_provider(c, x),
            _ => c,
        },
        ConfigKey::AiModel => match v {
            ConfigValue::Text(x) => with_ai_model(c, x),
            _ => c,
        },
        ConfigKey::AiBaseUrl => match v {
            ConfigValue::OptText(x) => with_ai_base_url(c, x),
            _ => c,
        },
        ConfigKey::AiTemperature => match v {
            ConfigValue::Float(x) => with_ai_temperature(c, x),
            _ => c,
        },
        ConfigKey::AiApiKey => match v {
            ConfigValue::OptText(x) => with_ai_api_key(c, x),
            _ => c,
        },
        ConfigKey::AiAutoTag => match v {
            ConfigValue::Bool(x) => with_ai_auto_tag(c, x),
            _ => c,
        },
        ConfigKey::AiAutoSummary => match v {
            ConfigValue::Bool(x) => with_ai_auto_summary(c, x),
            _ => c,
        },
        ConfigKey::AiTranslation => match v {
            ConfigValue::Bool(x) => with_ai_translation(c, x),
            _ => c,
        },
        ConfigKey::AiWebSearch => match v {
            ConfigValue::Bool(x) => with_ai_web_search(c, x),
            _ => c,
        },
        ConfigKey::SensitiveFilter => match v {
            ConfigValue::Bool(x) => with_sensitive_filter(c, x),
            _ => c,
        },
        ConfigKey::FilterPasswords => match v {
            ConfigValue::Bool(x) => with_filter_passwords(c, x),
            _ => c,
        },
        ConfigKey::FilterBankCards => match v {
            ConfigValue::Bool(x) => with_filter_bank_cards(c, x),
            _ => c,
        },
        ConfigKey::FilterIdCards => match v {
            ConfigValue::Bool(x) => with_filter_id_cards(c, x),
            _ => c,
        },
        ConfigKey::FilterPhoneNumbers => match v {
            ConfigValue::Bool(x) => with_filter_phone_numbers(c, x),
            _ => c,
        },
        ConfigKey::StoragePath => match v {
            ConfigValue::OptText(x) => with_storage_path(c, x),
            _ => c,
        },
        ConfigKey::AutoBackup => match v {
            ConfigValue::Bool(x) => with_auto_backup(c, x),
            _ => c,
        },
        ConfigKey::BackupFrequency => match v {
            ConfigValue::Text(x) => with_backup_frequency(c, x),
            _ => c,
        },
        ConfigKey::LastBackupPath => match v {
            ConfigValue::OptText(x) => with_last_backup_path(c, x),
            _ => c,
        },
        ConfigKey::CloudSyncEnabled => match v {
            ConfigValue::Bool(x) => with_cloud_sync_enabled(c, x),
            _ => c,
        },
        ConfigKey::SyncFrequency => match v {
            ConfigValue::Text(x) => with_sync_frequency(c, x),
            _ => c,
        },
        ConfigKey::SyncContentType => match v {
            ConfigValue::Text(x) => with_sync_content_type(c, x),
            _ => c,
        },
        ConfigKey::EncryptCloudData => match v {
            ConfigValue::Bool(x) => with_encrypt_cloud_data(c, x),
            _ => c,
        },
        ConfigKey::SyncOnlyWifi => match v {
            ConfigValue::Bool(x) => with_sync_only_wifi(c, x),
            _ => c,
        },
        ConfigKey::Username => match v {
            ConfigValue::OptText(x) => with_username(c, x),
            _ => c,
        },
        ConfigKey::Email => match v {
            ConfigValue::OptText(x) => with_email(c, x),
            _ => c,
        },
        ConfigKey::Bio => match v {
            ConfigValue::OptText(x) => with_bio(c, x),
            _ => c,
        },
        ConfigKey::AvatarPath => match v {
            ConfigValue::OptText(x) => with_avatar_path(c, x),
            _ => c,
        },
        ConfigKey::OcrProvider => match v {
            ConfigValue::OptText(x) => with_ocr_provider(c, x),
            _ => c,
        },
        ConfigKey::OcrLanguages => match v {
            ConfigValue::OptTextList(x) => with_ocr_languages(c, x),
            _ => c,
        },
        ConfigKey::OcrConfidenceThreshold => match v {
            ConfigValue::OptFloat(x) => with_ocr_confidence_threshold(c, x),
            _ => c,
        },
        ConfigKey::OcrTimeoutSecs => match v {
            ConfigValue::OptU64(x) => with_ocr_timeout_secs(c, x),
            _ => c,
        },
    }
}

fn clone_opt_string(s: &Option<String>) -> (res: Option<String>)
    ensures
        res == *s,
{
    match s {
        Some(x) => Some(x.clone()),
        None => None,
    }
}

fn clone_opt_strings(s: &Option<Vec<String>>) -> (res: Option<Vec<String>>)
    ensures
        res is Some <==> s is Some,
        res is Some ==> res->0@ == s->0@,
{
    match s {
        Some(x) => Some(clone_strings(x)),
        None => None,
    }
}

/// The value the setting `k` holds in `c`.
pub fn config_value_of(c: &Config, k: &ConfigKey) -> (res: ConfigValue)
    ensures
        res@ == spec_value_of(*c, *k)@,
{
    match k {
        ConfigKey::Autostart => ConfigValue::Bool(c.autostart),
        ConfigKey::TrayIconVisible => ConfigValue::Bool(c.tray_icon_visible),
        ConfigKey::MinimizeToTray => ConfigValue::Bool(c.minimize_to_tray),
        ConfigKey::AutoSave => ConfigValue::Bool(c.auto_save),
        ConfigKey::RetentionDays => ConfigValue::U32(c.retention_days),
        ConfigKey::GlobalShortcut => ConfigValue::Text(c.global_shortcut.clone()),
        ConfigKey::GlobalShortcut2 => ConfigValue::Text(c.global_shortcut_2.clone()),
        ConfigKey::GlobalShortcut3 => ConfigValue::Text(c.global_shortcut_3.clone()),
        ConfigKey::GlobalShortcut4 => ConfigValue::Text(c.global_shortcut_4.clone()),
        ConfigKey::GlobalShortcut5 => ConfigValue::Text(c.global_shortcut_5.clone()),
        ConfigKey::MaxHistoryItems => ConfigValue::U32(c.max_history_items),
        ConfigKey::IgnoreShortTextLen => ConfigValue::U32(c.ignore_short_text_len),
        ConfigKey::IgnoreBigFileMb => ConfigValue::U32(c.ignore_big_file_mb),
        ConfigKey::IgnoredApps => ConfigValue::TextList(clone_strings(&c.ignored_apps)),
        ConfigKey::AutoClassify => ConfigValue::Bool(c.auto_classify),
        ConfigKey::OcrAutoRecognition => ConfigValue::Bool(c.ocr_auto_recognition),
        ConfigKey::DeleteConfirmation => ConfigValue::Bool(c.delete_confirmation),
        ConfigKey::KeepFavoritesOnDelete => ConfigValue::Bool(c.keep_favorites_on_delete),
        ConfigKey::AutoSort => ConfigValue::Bool(c.auto_sort),
        ConfigKey::AiEnabled => ConfigValue::Bool(c.ai_enabled),
        ConfigKey::AiProvider => ConfigValue::Text(c.ai_provider.clone()),
        ConfigKey::AiModel => ConfigValue::Text(c.ai_model.clone()),
        ConfigKey::AiBaseUrl => ConfigValue::OptText(clone_opt_string(&c.ai_base_url)),
        ConfigKey::AiTemperature => ConfigValue::Float(c.ai_temperature_bits),
        ConfigKey::AiApiKey => ConfigValue::OptText(clone_opt_string(&c.ai_api_key)),
        ConfigKey::AiAutoTag => ConfigValue::Bool(c.ai_auto_tag),
        ConfigKey::AiAutoSummary => ConfigValue::Bool(c.ai_auto_summary),
        ConfigKey::AiTranslation => ConfigValue::Bool(c.ai_translation),
        ConfigKey::AiWebSearch => ConfigValue::Bool(c.ai_web_search),
        ConfigKey::SensitiveFilter => ConfigValue::Bool(c.sensitive_filter),
        ConfigKey::FilterPasswords => ConfigValue::Bool(c.filter_passwords),
        ConfigKey::FilterBankCards => ConfigValue::Bool(c.filter_bank_cards),
        ConfigKey::FilterIdCards => ConfigValue::Bool(c.filter_id_cards),
        ConfigKey::FilterPhoneNumbers => ConfigValue::Bool(c.filter_phone_numbers),
        ConfigKey::StoragePath => ConfigValue::OptText(clone_opt_string(&c.storage_path)),
        ConfigKey::AutoBackup => ConfigValue::Bool(c.auto_backup),
        ConfigKey::BackupFrequency => ConfigValue::Text(c.backup_frequency.clone()),
        ConfigKey::LastBackupPath => ConfigValue::OptText(clone_opt_string(&c.last_backup_path)),
        ConfigKey::CloudSyncEnabled => ConfigValue::Bool(c.cloud_sync_enabled),
        ConfigKey::SyncFrequency => ConfigValue::Text(c.sync_frequency.clone()),
        ConfigKey::SyncContentType => ConfigValue::Text(c.sync_content_type.clone()),
        ConfigKey::EncryptCloudData => ConfigValue::Bool(c.encrypt_cloud_data),
        ConfigKey::SyncOnlyWifi => ConfigValue::Bool(c.sync_only_wifi),
        ConfigKey::Username => ConfigValue::OptText(clone_opt_string(&c.username)),
        ConfigKey::Email => ConfigValue::OptText(clone_opt_string(&c.email)),
        ConfigKey::Bio => ConfigValue::OptText(clone_opt_string(&c.bio)),
        ConfigKey::AvatarPath => ConfigValue::OptText(clone_opt_string(&c.avatar_path)),
        ConfigKey::OcrProvider => ConfigValue::OptText(clone_opt_string(&c.ocr_provider)),
        ConfigKey::OcrLanguages => ConfigValue::OptTextList(clone_opt_strings(&c.ocr_languages)),
        ConfigKey::OcrConfidenceThreshold => ConfigValue::OptFloat(c.ocr_confidence_threshold_bits),
        ConfigKey::OcrTimeoutSecs => ConfigValue::OptU64(c.ocr_timeout_secs),
    }
}

fn store_autostart(cfg: Config, value: ConfigValue) -> (res: Config)
    ensures
        res == spec_with_value(cfg, ConfigKey::Autostart, value),
{
    match value {
        ConfigValue::Bool(x) => Config { autostart: x, ..cfg },
        _ => cfg,
    }
}

fn store_tray_icon_visible(cfg: Config, value: ConfigValue) -> (res: Config)
    ensures
        res == spec_with_value(cfg, ConfigKey::TrayIconVisible, value),
{
    match value {
        ConfigValue::Bool(x) => Config { tray_icon_visible: x, ..cfg },
        _ => cfg,
    }
}

fn store_minimize_to_tray(cfg: Config, value: ConfigValue) -> (res: Config)
    ensures
        res == spec_with_value(cfg, ConfigKey::MinimizeToTray, value),
{
    match value {
        ConfigValue::Bool(x) => Config { minimize_to_tray: x, ..cfg },
        _ => cfg,
    }
}

fn store_auto_save(cfg: Config, value: ConfigValue) -> (res: Config)
    ensures
        res == spec_with_value(cfg, ConfigKey::AutoSave, value),
{
    match value {
        ConfigValue::Bool(x) => Config { auto_save: x, ..cfg },
        _ => cfg,
    }
}

fn store_retention_days(cfg: Config, value: ConfigValue) -> (res: Config)
    ensures
        res == spec_with_value(cfg, ConfigKey::RetentionDays, value),
{
    match value {
        ConfigValue::U32(x) => Config { retention_days: x, ..cfg },
        _ => cfg,
    }
}

fn store_global_shortcut(cfg: Config, value: ConfigValue) -> (res: Config)
    ensures
        res == spec_with_value(cfg, ConfigKey::GlobalShortcut, value),
{
    match value {
        ConfigValue::Text(x) => Config { global_shortcut: x, ..cfg },
        _ => cfg,
    }
}

fn store_global_shortcut_2(cfg: Config, value: ConfigValue) -> (res: Config)
    ensures
        res == spec_with_value(cfg, ConfigKey::GlobalShortcut2, value),
{
    match value {
        ConfigValue::Text(x) => Config { global_shortcut_2: x, ..cfg },
        _ => cfg,
    }
}

fn store_global_shortcut_3(cfg: Config, value: ConfigValue) -> (res: Config)
    ensures
        res == spec_with_value(cfg, ConfigKey::GlobalShortcut3, value),
{
    match value {
        ConfigValue::Text(x) => Config { global_shortcut_3: x, ..cfg },
        _ => cfg,
    }
}

fn store_global_shortcut_4(cfg: Config, value: ConfigValue) -> (res: Config)
    ensures
        res == spec_with_value(cfg, ConfigKey::GlobalShortcut4, value),
{
    match value {
        ConfigValue::Text(x) => Config { global_shortcut_4: x, ..cfg },
        _ => cfg,
    }
}

fn store_global_shortcut_5(cfg: Config, value: ConfigValue) -> (res: Config)
    ensures
        res == spec_with_value(cfg, ConfigKey::GlobalShortcut5, value),
{
    match value {
        ConfigValue::Text(x) => Config { global_shortcut_5: x, ..cfg },
        _ => cfg,
    }
}

fn store_max_history_items(cfg: Config, value: ConfigValue) -> (res: Config)
    ensures
        res == spec_with_value(cfg, ConfigKey::MaxHistoryItems, value),
{
    match value {
        ConfigValue::U32(x) => Config { max_history_items: x, ..cfg },
        _ => cfg,
    }
}

fn store_ignore_short_text_len(cfg: Config, value: ConfigValue) -> (res: Config)
    ensures
        res == spec_with_value(cfg, ConfigKey::IgnoreShortTextLen, value),
{
    match value {
        ConfigValue::U32(x) => Config { ignore_short_text_len: x, ..cfg },
        _ => cfg,
    }
}

fn store_ignore_big_file_mb(cfg: Config, value: ConfigValue) -> (res: Config)
    ensures
        res == spec_with_value(cfg, ConfigKey::IgnoreBigFileMb, value),
{
    match value {
        ConfigValue::U32(x) => Config { ignore_big_file_mb: x, ..cfg },
        _ => cfg,
    }
}

fn store_ignored_apps(cfg: Config, value: ConfigValue) -> (res: Config)
    ensures
        res == spec_with_value(cfg, ConfigKey::IgnoredApps, value),
{
    match value {
        ConfigValue::TextList(x) => Config { ignored_apps: x, ..cfg },
        _ => cfg,
    }
}

fn store_auto_classify(cfg: Config, value: ConfigValue) -> (res: Config)
    ensures
        res == spec_with_value(cfg, ConfigKey::AutoClassify, value),
{
    match value {
        ConfigValue::Bool(x) => Config { auto_classify: x, ..cfg },
        _ => cfg,
    }
}

fn store_ocr_auto_recognition(cfg: Config, value: ConfigValue) -> (res: Config)
    ensures
        res == spec_with_value(cfg, ConfigKey::OcrAutoRecognition, value),
{
    match value {
        ConfigValue::Bool(x) => Config { ocr_auto_recognition: x, ..cfg },
        _ => cfg,
    }
}

fn store_delete_confirmation(cfg: Config, value: ConfigValue) -> (res: Config)
    ensures
        res == spec_with_value(cfg, ConfigKey::DeleteConfirmation, value),
{
    match value {
        ConfigValue::Bool(x) => Config { delete_confirmation: x, ..cfg },
        _ => cfg,
    }
}

fn store_keep_favorites_on_delete(cfg: Config, value: ConfigValue) -> (res: Config)
    ensures
        res == spec_with_value(cfg, ConfigKey::KeepFavoritesOnDelete, value),
{
    match value {
        ConfigValue::Bool(x) => Config { keep_favorites_on_delete: x, ..cfg },
        _ => cfg,
    }
}

fn store_auto_sort(cfg: Config, value: ConfigValue) -> (res: Config)
    ensures
        res == spec_with_value(cfg, ConfigKey::AutoSort, value),
{
    match value {
        ConfigValue::Bool(x) => Config { auto_sort: x, ..cfg },
        _ => cfg,
    }
}

fn store_ai_enabled(cfg: Config, value: ConfigValue) -> (res: Config)
    ensures
        res == spec_with_value(cfg, ConfigKey::AiEnabled, value),
{
    match value {
        ConfigValue::Bool(x) => Config { ai_enabled: x, ..cfg },
        _ => cfg,
    }
}

fn store_ai_provider(cfg: Config, value: ConfigValue) -> (res: Config)
    ensures
        res == spec_with_value(cfg, ConfigKey::AiProvider, value),
{
    match value {
        ConfigValue::Text(x) => Config { ai_provider: x, ..cfg },
        _ => cfg,
    }
}

fn store_ai_model(cfg: Config, value: ConfigValue) -> (res: Config)
    ensures
        res == spec_with_value(cfg, ConfigKey::AiModel, value),
{
    match value {
        ConfigValue::Text(x) => Config { ai_model: x, ..cfg },
        _ => cfg,
    }
}

fn store_ai_base_url(cfg: Config, value: ConfigValue) -> (res: Config)
    ensures
        res == spec_with_value(cfg, ConfigKey::AiBaseUrl, value),
{
    match value {
        ConfigValue::OptText(x) => Config { ai_base_url: x, ..cfg },
        _ => cfg,
    }
}

fn store_ai_temperature(cfg: Config, value: ConfigValue) -> (res: Config)
    ensures
        res == spec_with_value(cfg, ConfigKey::AiTemperature, value),
{
    match value {
        ConfigValue::Float(x) => Config { ai_temperature_bits: x, ..cfg },
        _ => cfg,
    }
}

fn store_ai_api_key(cfg: Config, value: ConfigValue) -> (res: Config)
    ensures
        res == spec_with_value(cfg, ConfigKey::AiApiKey, value),
{
    match value {
        ConfigValue::OptText(x) => Config { ai_api_key: x, ..cfg },
        _ => cfg,
    }
}

fn store_ai_auto_tag(cfg: Config, value: ConfigValue) -> (res: Config)
    ensures
        res == spec_with_value(cfg, ConfigKey::AiAutoTag, value),
{
    match value {
        ConfigValue::Bool(x) => Config { ai_auto_tag: x, ..cfg },
        _ => cfg,
    }
}

fn store_ai_auto_summary(cfg: Config, value: ConfigValue) -> (res: Config)
    ensures
        res == spec_with_value(cfg, ConfigKey::AiAutoSummary, value),
{
    match value {
        ConfigValue::Bool(x) => Config { ai_auto_summary: x, ..cfg },
        _ => cfg,
    }
}

fn store_ai_translation(cfg: Config, value: ConfigValue) -> (res: Config)
    ensures
        res == spec_with_value(cfg, ConfigKey::AiTranslation, value),
{
    match value {
        ConfigValue::Bool(x) => Config { ai_translation: x, ..cfg },
        _ => cfg,
    }
}

fn store_ai_web_search(cfg: Config, value: ConfigValue) -> (res: Config)
    ensures
        res == spec_with_value(cfg, ConfigKey::AiWebSearch, value),
{
    match value {
        ConfigValue::Bool(x) => Config { ai_web_search: x, ..cfg },
        _ => cfg,
    }
}

fn store_sensitive_filter(cfg: Config, value: ConfigValue) -> (res: Config)
    ensures
        res == spec_with_value(cfg, ConfigKey::SensitiveFilter, value),
{
    match value {
        ConfigValue::Bool(x) => Config { sensitive_filter: x, ..cfg },
        _ => cfg,
    }
}

fn store_filter_passwords(cfg: Config, value: ConfigValue) -> (res: Config)
    ensures
        res == spec_with_value(cfg, ConfigKey::FilterPasswords, value),
{
    match value {
        ConfigValue::Bool(x) => Config { filter_passwords: x, ..cfg },
        _ => cfg,
    }
}

fn store_filter_bank_cards(cfg: Config, value: ConfigValue) -> (res: Config)
    ensures
        res == spec_with_value(cfg, ConfigKey::FilterBankCards, value),
{
    match value {
        ConfigValue::Bool(x) => Config { filter_bank_cards: x, ..cfg },
        _ => cfg,
    }
}

fn store_filter_id_cards(cfg: Config, value: ConfigValue) -> (res: Config)
    ensures
        res == spec_with_value(cfg, ConfigKey::FilterIdCards, value),
{
    match value {
        ConfigValue::Bool(x) => Config { filter_id_cards: x, ..cfg },
        _ => cfg,
    }
}

fn store_filter_phone_numbers(cfg: Config, value: ConfigValue) -> (res: Config)
    ensures
        res == spec_with_value(cfg, ConfigKey::FilterPhoneNumbers, value),
{
    match value {
        ConfigValue::Bool(x) => Config { filter_phone_numbers: x, ..cfg },
        _ => cfg,
    }
}

fn store_storage_path(cfg: Config, value: ConfigValue) -> (res: Config)
    ensures
        res == spec_with_value(cfg, ConfigKey::StoragePath, value),
{
    match value {
        ConfigValue::OptText(x) => Config { storage_path: x, ..cfg },
        _ => cfg,
    }
}

fn store_auto_backup(cfg: Config, value: ConfigValue) -> (res: Config)
    ensures
        res == spec_with_value(cfg, ConfigKey::AutoBackup, value),
{
    match value {
        ConfigValue::Bool(x) => Config { auto_backup: x, ..cfg },
        _ => cfg,
    }
}

fn store_backup_frequency(cfg: Config, value: ConfigValue) -> (res: Config)
    ensures
        res == spec_with_value(cfg, ConfigKey::BackupFrequency, value),
{
    match value {
        ConfigValue::Text(x) => Config { backup_frequency: x, ..cfg },
        _ => cfg,
    }
}

fn store_last_backup_path(cfg: Config, value: ConfigValue) -> (res: Config)
    ensures
        res == spec_with_value(cfg, ConfigKey::LastBackupPath, value),
{
    match value {
        ConfigValue::OptText(x) => Config { last_backup_path: x, ..cfg },
        _ => cfg,
    }
}

fn store_cloud_sync_enabled(cfg: Config, value: ConfigValue) -> (res: Config)
    ensures
        res == spec_with_value(cfg, ConfigKey::CloudSyncEnabled, value),
{
    match value {
        ConfigValue::Bool(x) => Config { cloud_sync_enabled: x, ..cfg },
        _ => cfg,
    }
}

fn store_sync_frequency(cfg: Config, value: ConfigValue) -> (res: Config)
    ensures
        res == spec_with_value(cfg, ConfigKey::SyncFrequency, value),
{
    match value {
        ConfigValue::Text(x) => Config { sync_frequency: x, ..cfg },
        _ => cfg,
    }
}

fn store_sync_content_type(cfg: Config, value: ConfigValue) -> (res: Config)
    ensures
        res == spec_with_value(cfg, ConfigKey::SyncContentType, value),
{
    match value {
        ConfigValue::Text(x) => Config { sync_content_type: x, ..cfg },
        _ => cfg,
    }
}

fn store_encrypt_cloud_data(cfg: Config, value: ConfigValue) -> (res: Config)
    ensures
        res == spec_with_value(cfg, ConfigKey::EncryptCloudData, value),
{
    match value {
        ConfigValue::Bool(x) => Config { encrypt_cloud_data: x, ..cfg },
        _ => cfg,
    }
}

fn store_sync_only_wifi(cfg: Config, value: ConfigValue) -> (res: Config)
    ensures
        res == spec_with_value(cfg, ConfigKey::SyncOnlyWifi, value),
{
    match value {
        ConfigValue::Bool(x) => Config { sync_only_wifi: x, ..cfg },
        _ => cfg,
    }
}

fn store_username(cfg: Config, value: ConfigValue) -> (res: Config)
    ensures
        res == spec_with_value(cfg, ConfigKey::Username, value),
{
    match value {
        ConfigValue::OptText(x) => Config { username: x, ..cfg },
        _ => cfg,
    }
}

fn store_email(cfg: Config, value: ConfigValue) -> (res: Config)
    ensures
        res == spec_with_value(cfg, ConfigKey::Email, value),
{
    match value {
        ConfigValue::OptText(x) => Config { email: x, ..cfg },
        _ => cfg,
    }
}

fn store_bio(cfg: Config, value: ConfigValue) -> (res: Config)
    ensures
        res == spec_with_value(cfg, ConfigKey::Bio, value),
{
    match value {
        ConfigValue::OptText(x) => Config { bio: x, ..cfg },
        _ => cfg,
    }
}

fn store_avatar_path(cfg: Config, value: ConfigValue) -> (res: Config)
    ensures
        res == spec_with_value(cfg, ConfigKey::AvatarPath, value),
{
    match value {
        ConfigValue::OptText(x) => Config { avatar_path: x, ..cfg },
        _ => cfg,
    }
}

fn store_ocr_provider(cfg: Config, value: ConfigValue) -> (res: Config)
    ensures
        res == spec_with_value(cfg, ConfigKey::OcrProvider, value),
{
    match value {
        ConfigValue::OptText(x) => Config { ocr_provider: x, ..cfg },
        _ => cfg,
    }
}

fn store_ocr_languages(cfg: Config, value: ConfigValue) -> (res: Config)
    ensures
        res == spec_with_value(cfg, ConfigKey::OcrLanguages, value),
{
    match value {
        ConfigValue::OptTextList(x) => Config { ocr_languages: x, ..cfg },
        _ => cfg,
    }
}

fn store_ocr_confidence_threshold(cfg: Config, value: ConfigValue) -> (res: Config)
    ensures
        res == spec_with_value(cfg, ConfigKey::OcrConfidenceThreshold, value),
{
    match value {
        ConfigValue::OptFloat(x) => Config { ocr_confidence_threshold_bits: x, ..cfg },
        _ => cfg,
    }
}

fn store_ocr_timeout_secs(cfg: Config, value: ConfigValue) -> (res: Config)
    ensures
        res == spec_with_value(cfg, ConfigKey::OcrTimeoutSecs, value),
{
    match value {
        ConfigValue::OptU64(x) => Config { ocr_timeout_secs: x, ..cfg },
        _ => cfg,
    }
}

/// Stores `value` in the setting `key` when its shape is the key's; leaves `cfg`
/// unchanged otherwise.
#[verifier::spinoff_prover]
#[verifier::rlimit(100)]
fn store_value(cfg: Config, key: &ConfigKey, value: ConfigValue) -> (res: Config)
    ensures
        res == spec_with_value(cfg, *key, value),
{
    match key {
        ConfigKey::Autostart => store_autostart(cfg, value),
        ConfigKey::TrayIconVisible => store_tray_icon_visible(cfg, value),
        ConfigKey::MinimizeToTray => store_minimize_to_tray(cfg, value),
        ConfigKey::AutoSave => store_auto_save(cfg, value),
        ConfigKey::RetentionDays => store_retention_days(cfg, value),
        ConfigKey::GlobalShortcut => store_global_shortcut(cfg, value),
        ConfigKey::GlobalShortcut2 => store_global_shortcut_2(cfg, value),
        ConfigKey::GlobalShortcut3 => store_global_shortcut_3(cfg, value),
        ConfigKey::GlobalShortcut4 => store_global_shortcut_4(cfg, value),
        ConfigKey::GlobalShortcut5 => store_global_shortcut_5(cfg, value),
        ConfigKey::MaxHistoryItems => store_max_history_items(cfg, value),
        ConfigKey::IgnoreShortTextLen => store_ignore_short_text_len(cfg, value),
        ConfigKey::IgnoreBigFileMb => store_ignore_big_file_mb(cfg, value),
        ConfigKey::IgnoredApps => store_ignored_apps(cfg, value),
        ConfigKey::AutoClassify => store_auto_classify(cfg, value),
        ConfigKey::OcrAutoRecognition => store_ocr_auto_recognition(cfg, value),
        ConfigKey::DeleteConfirmation => store_delete_confirmation(cfg, value),
        ConfigKey::KeepFavoritesOnDelete => store_keep_favorites_on_delete(cfg, value),
        ConfigKey::AutoSort => store_auto_sort(cfg, value),
        ConfigKey::AiEnabled => store_ai_enabled(cfg, value),
        ConfigKey::AiProvider => store_ai_provider(cfg, value),
        ConfigKey::AiModel => store_ai_model(cfg, value),
        ConfigKey::AiBaseUrl => store_ai_base_url(cfg, value),
        ConfigKey::AiTemperature => store_ai_temperature(cfg, value),
        ConfigKey::AiApiKey => store_ai_api_key(cfg, value),
        ConfigKey::AiAutoTag => store_ai_auto_tag(cfg, value),
        ConfigKey::AiAutoSummary => store_ai_auto_summary(cfg, value),
        ConfigKey::AiTranslation => store_ai_translation(cfg, value),
        ConfigKey::AiWebSearch => store_ai_web_search(cfg, value),
        ConfigKey::SensitiveFilter => store_sensitive_filter(cfg, value),
        ConfigKey::FilterPasswords => store_filter_passwords(cfg, value),
        ConfigKey::FilterBankCards => store_filter_bank_cards(cfg, value),
        ConfigKey::FilterIdCards => store_filter_id_cards(cfg, value),
        ConfigKey::FilterPhoneNumbers => store_filter_phone_numbers(cfg, value),
        ConfigKey::StoragePath => store_storage_path(cfg, value),
        ConfigKey::AutoBackup => store_auto_backup(cfg, value),
        ConfigKey::BackupFrequency => store_backup_frequency(cfg, value),
        ConfigKey::LastBackupPath => store_last_backup_path(cfg, value),
        ConfigKey::CloudSyncEnabled => store_cloud_sync_enabled(cfg, value),
        ConfigKey::SyncFrequency => store_sync_frequency(cfg, value),
        ConfigKey::SyncContentType => store_sync_content_type(cfg, value),
        ConfigKey::EncryptCloudData => store_encrypt_cloud_data(cfg, value),
        ConfigKey::SyncOnlyWifi => store_sync_only_wifi(cfg, value),
        ConfigKey::Username => store_username(cfg, value),
        ConfigKey::Email => store_email(cfg, value),
        ConfigKey::Bio => store_bio(cfg, value),
        ConfigKey::AvatarPath => store_avatar_path(cfg, value),
        ConfigKey::OcrProvider => store_ocr_provider(cfg, value),
        ConfigKey::OcrLanguages => store_ocr_languages(cfg, value),
        ConfigKey::OcrConfidenceThreshold => store_ocr_confidence_threshold(cfg, value),
        ConfigKey::OcrTimeoutSecs => store_ocr_timeout_secs(cfg, value),
    }
}

/// Writes one setting. The auto-start setting is not written here (switching it needs
/// the operating system) and gives `Ok(false)`; a value of another shape than the key's
/// gives the error "Invalid type for config key"; both leave the settings unchanged.
/// Otherwise the setting is written and the result is `Ok(true)`.
pub fn update_simple_config_item(cfg: &mut Config, key: &ConfigKey, value: ConfigValue) -> (res:
    Result<bool, String>)
    ensures
        *key == ConfigKey::Autostart ==> res == Ok::<bool, String>(false) && *final(cfg) == *old(cfg),
        *key != ConfigKey::Autostart && spec_kind_of(value) != spec_key_kind(*key) ==> res is Err
            && res->Err_0@ == "Invalid type for config key"@ && *final(cfg) == *old(cfg),
        *key != ConfigKey::Autostart && spec_kind_of(value) == spec_key_kind(*key) ==> res
            == Ok::<bool, String>(true) && *final(cfg) == spec_with_value(*old(cfg), *key, value),
{
    if *key == ConfigKey::Autostart {
        return Ok(false);
    }
    if kind_of(&value) != config_key_kind(key) {
        return Err("Invalid type for config key".to_string());
    }
    let mut taken = default_config();
    std::mem::swap(&mut taken, cfg);
    *cfg = store_value(taken, key, value);
    Ok(true)
}


proof fn lemma_rw_autostart(c: Config, v: ConfigValue, other: ConfigKey)
    requires
        spec_kind_of(v) == ValueKind::Bool,
        other != ConfigKey::Autostart,
    ensures
        spec_value_of(spec_with_value(c, ConfigKey::Autostart, v), ConfigKey::Autostart) == v,
        spec_value_of(spec_with_value(c, ConfigKey::Autostart, v), other) == spec_value_of(c, other),
{
}

proof fn lemma_rw_tray_icon_visible(c: Config, v: ConfigValue, other: ConfigKey)
    requires
        spec_kind_of(v) == ValueKind::Bool,
        other != ConfigKey::TrayIconVisible,
    ensures
        spec_value_of(spec_with_value(c, ConfigKey::TrayIconVisible, v), ConfigKey::TrayIconVisible) == v,
        spec_value_of(spec_with_value(c, ConfigKey::TrayIconVisible, v), other) == spec_value_of(c, other),
{
}

proof fn lemma_rw_minimize_to_tray(c: Config, v: ConfigValue, other: ConfigKey)
    requires
        spec_kind_of(v) == ValueKind::Bool,
        other != ConfigKey::MinimizeToTray,
    ensures
        spec_value_of(spec_with_value(c, ConfigKey::MinimizeToTray, v), ConfigKey::MinimizeToTray) == v,
        spec_value_of(spec_with_value(c, ConfigKey::MinimizeToTray, v), other) == spec_value_of(c, other),
{
}

proof fn lemma_rw_auto_save(c: Config, v: ConfigValue, other: ConfigKey)
    requires
        spec_kind_of(v) == ValueKind::Bool,
        other != ConfigKey::AutoSave,
    ensures
        spec_value_of(spec_with_value(c, ConfigKey::AutoSave, v), ConfigKey::AutoSave) == v,
        spec_value_of(spec_with_value(c, ConfigKey::AutoSave, v), other) == spec_value_of(c, other),
{
}

proof fn lemma_rw_retention_days(c: Config, v: ConfigValue, other: ConfigKey)
    requires
        spec_kind_of(v) == ValueKind::U32,
        other != ConfigKey::RetentionDays,
    ensures
        spec_value_of(spec_with_value(c, ConfigKey::RetentionDays, v), ConfigKey::RetentionDays) == v,
        spec_value_of(spec_with_value(c, ConfigKey::RetentionDays, v), other) == spec_value_of(c, other),
{
}

proof fn lemma_rw_global_shortcut(c: Config, v: ConfigValue, other: ConfigKey)
    requires
        spec_kind_of(v) == ValueKind::Text,
        other != ConfigKey::GlobalShortcut,
    ensures
        spec_value_of(spec_with_value(c, ConfigKey::GlobalShortcut, v), ConfigKey::GlobalShortcut) == v,
        spec_value_of(spec_with_value(c, ConfigKey::GlobalShortcut, v), other) == spec_value_of(c, other),
{
}

proof fn lemma_rw_global_shortcut_2(c: Config, v: ConfigValue, other: ConfigKey)
    requires
        spec_kind_of(v) == ValueKind::Text,
        other != ConfigKey::GlobalShortcut2,
    ensures
        spec_value_of(spec_with_value(c, ConfigKey::GlobalShortcut2, v), ConfigKey::GlobalShortcut2) == v,
        spec_value_of(spec_with_value(c, ConfigKey::GlobalShortcut2, v), other) == spec_value_of(c, other),
{
}

proof fn lemma_rw_global_shortcut_3(c: Config, v: ConfigValue, other: ConfigKey)
    requires
        spec_kind_of(v) == ValueKind::Text,
        other != ConfigKey::GlobalShortcut3,
    ensures
        spec_value_of(spec_with_value(c, ConfigKey::GlobalShortcut3, v), ConfigKey::GlobalShortcut3) == v,
        spec_value_of(spec_with_value(c, ConfigKey::GlobalShortcut3, v), other) == spec_value_of(c, other),
{
}

proof fn lemma_rw_global_shortcut_4(c: Config, v: ConfigValue, other: ConfigKey)
    requires
        spec_kind_of(v) == ValueKind::Text,
        other != ConfigKey::GlobalShortcut4,
    ensures
        spec_value_of(spec_with_value(c, ConfigKey::GlobalShortcut4, v), ConfigKey::GlobalShortcut4) == v,
        spec_value_of(spec_with_value(c, ConfigKey::GlobalShortcut4, v), other) == spec_value_of(c, other),
{
}

proof fn lemma_rw_global_shortcut_5(c: Config, v: ConfigValue, other: ConfigKey)
    requires
        spec_kind_of(v) == ValueKind::Text,
        other != ConfigKey::GlobalShortcut5,
    ensures
        spec_value_of(spec_with_value(c, ConfigKey::GlobalShortcut5, v), ConfigKey::GlobalShortcut5) == v,
        spec_value_of(spec_with_value(c, ConfigKey::GlobalShortcut5, v), other) == spec_value_of(c, other),
{
}

proof fn lemma_rw_max_history_items(c: Config, v: ConfigValue, other: ConfigKey)
    requires
        spec_kind_of(v) == ValueKind::U32,
        other != ConfigKey::MaxHistoryItems,
    ensures
        spec_value_of(spec_with_value(c, ConfigKey::MaxHistoryItems, v), ConfigKey::MaxHistoryItems) == v,
        spec_value_of(spec_with_value(c, ConfigKey::MaxHistoryItems, v), other) == spec_value_of(c, other),
{
}

proof fn lemma_rw_ignore_short_text_len(c: Config, v: ConfigValue, other: ConfigKey)
    requires
        spec_kind_of(v) == ValueKind::U32,
        other != ConfigKey::IgnoreShortTextLen,
    ensures
        spec_value_of(spec_with_value(c, ConfigKey::IgnoreShortTextLen, v), ConfigKey::IgnoreShortTextLen) == v,
        spec_value_of(spec_with_value(c, ConfigKey::IgnoreShortTextLen, v), other) == spec_value_of(c, other),
{
}

proof fn lemma_rw_ignore_big_file_mb(c: Config, v: ConfigValue, other: ConfigKey)
    requires
        spec_kind_of(v) == ValueKind::U32,
        other != ConfigKey::IgnoreBigFileMb,
    ensures
        spec_value_of(spec_with_value(c, ConfigKey::IgnoreBigFileMb, v), ConfigKey::IgnoreBigFileMb) == v,
        spec_value_of(spec_with_value(c, ConfigKey::IgnoreBigFileMb, v), other) == spec_value_of(c, other),
{
}

proof fn lemma_rw_ignored_apps(c: Config, v: ConfigValue, other: ConfigKey)
    requires
        spec_kind_of(v) == ValueKind::TextList,
        other != ConfigKey::IgnoredApps,
    ensures
        spec_value_of(spec_with_value(c, ConfigKey::IgnoredApps, v), ConfigKey::IgnoredApps) == v,
        spec_value_of(spec_with_value(c, ConfigKey::IgnoredApps, v), other) == spec_value_of(c, other),
{
}

proof fn lemma_rw_auto_classify(c: Config, v: ConfigValue, other: ConfigKey)
    requires
        spec_kind_of(v) == ValueKind::Bool,
        other != ConfigKey::AutoClassify,
    ensures
        spec_value_of(spec_with_value(c, ConfigKey::AutoClassify, v), ConfigKey::AutoClassify) == v,
        spec_value_of(spec_with_value(c, ConfigKey::AutoClassify, v), other) == spec_value_of(c, other),
{
}

proof fn lemma_rw_ocr_auto_recognition(c: Config, v: ConfigValue, other: ConfigKey)
    requires
        spec_kind_of(v) == ValueKind::Bool,
        other != ConfigKey::OcrAutoRecognition,
    ensures
        spec_value_of(spec_with_value(c, ConfigKey::OcrAutoRecognition, v), ConfigKey::OcrAutoRecognition) == v,
        spec_value_of(spec_with_value(c, ConfigKey::OcrAutoRecognition, v), other) == spec_value_of(c, other),
{
}

proof fn lemma_rw_delete_confirmation(c: Config, v: ConfigValue, other: ConfigKey)
    requires
        spec_kind_of(v) == ValueKind::Bool,
        other != ConfigKey::DeleteConfirmation,
    ensures
        spec_value_of(spec_with_value(c, ConfigKey::DeleteConfirmation, v), ConfigKey::DeleteConfirmation) == v,
        spec_value_of(spec_with_value(c, ConfigKey::DeleteConfirmation, v), other) == spec_value_of(c, other),
{
}

proof fn lemma_rw_keep_favorites_on_delete(c: Config, v: ConfigValue, other: ConfigKey)
    requires
        spec_kind_of(v) == ValueKind::Bool,
        other != ConfigKey::KeepFavoritesOnDelete,
    ensures
        spec_value_of(spec_with_value(c, ConfigKey::KeepFavoritesOnDelete, v), ConfigKey::KeepFavoritesOnDelete) == v,
        spec_value_of(spec_with_value(c, ConfigKey::KeepFavoritesOnDelete, v), other) == spec_value_of(c, other),
{
}

proof fn lemma_rw_auto_sort(c: Config, v: ConfigValue, other: ConfigKey)
    requires
        spec_kind_of(v) == ValueKind::Bool,
        other != ConfigKey::AutoSort,
    ensures
        spec_value_of(spec_with_value(c, ConfigKey::AutoSort, v), ConfigKey::AutoSort) == v,
        spec_value_of(spec_with_value(c, ConfigKey::AutoSort, v), other) == spec_value_of(c, other),
{
}

proof fn lemma_rw_ai_enabled(c: Config, v: ConfigValue, other: ConfigKey)
    requires
        spec_kind_of(v) == ValueKind::Bool,
        other != ConfigKey::AiEnabled,
    ensures
        spec_value_of(spec_with_value(c, ConfigKey::AiEnabled, v), ConfigKey::AiEnabled) == v,
        spec_value_of(spec_with_value(c, ConfigKey::AiEnabled, v), other) == spec_value_of(c, other),
{
}

proof fn lemma_rw_ai_provider(c: Config, v: ConfigValue, other: ConfigKey)
    requires
        spec_kind_of(v) == ValueKind::Text,
        other != ConfigKey::AiProvider,
    ensures
        spec_value_of(spec_with_value(c, ConfigKey::AiProvider, v), ConfigKey::AiProvider) == v,
        spec_value_of(spec_with_value(c, ConfigKey::AiProvider, v), other) == spec_value_of(c, other),
{
}

proof fn lemma_rw_ai_model(c: Config, v: ConfigValue, other: ConfigKey)
    requires
        spec_kind_of(v) == ValueKind::Text,
        other != ConfigKey::AiModel,
    ensures
        spec_value_of(spec_with_value(c, ConfigKey::AiModel, v), ConfigKey::AiModel) == v,
        spec_value_of(spec_with_value(c, ConfigKey::AiModel, v), other) == spec_value_of(c, other),
{
}

proof fn lemma_rw_ai_base_url(c: Config, v: ConfigValue, other: ConfigKey)
    requires
        spec_kind_of(v) == ValueKind::OptText,
        other != ConfigKey::AiBaseUrl,
    ensures
        spec_value_of(spec_with_value(c, ConfigKey::AiBaseUrl, v), ConfigKey::AiBaseUrl) == v,
        spec_value_of(spec_with_value(c, ConfigKey::AiBaseUrl, v), other) == spec_value_of(c, other),
{
}

proof fn lemma_rw_ai_temperature(c: Config, v: ConfigValue, other: ConfigKey)
    requires
        spec_kind_of(v) == ValueKind::Float,
        other != ConfigKey::AiTemperature,
    ensures
        spec_value_of(spec_with_value(c, ConfigKey::AiTemperature, v), ConfigKey::AiTemperature) == v,
        spec_value_of(spec_with_value(c, ConfigKey::AiTemperature, v), other) == spec_value_of(c, other),
{
}

proof fn lemma_rw_ai_api_key(c: Config, v: ConfigValue, other: ConfigKey)
    requires
        spec_kind_of(v) == ValueKind::OptText,
        other != ConfigKey::AiApiKey,
    ensures
        spec_value_of(spec_with_value(c, ConfigKey::AiApiKey, v), ConfigKey::AiApiKey) == v,
        spec_value_of(spec_with_value(c, ConfigKey::AiApiKey, v), other) == spec_value_of(c, other),
{
}

proof fn lemma_rw_ai_auto_tag(c: Config, v: ConfigValue, other: ConfigKey)
    requires
        spec_kind_of(v) == ValueKind::Bool,
        other != ConfigKey::AiAutoTag,
    ensures
        spec_value_of(spec_with_value(c, ConfigKey::AiAutoTag, v), ConfigKey::AiAutoTag) == v,
        spec_value_of(spec_with_value(c, ConfigKey::AiAutoTag, v), other) == spec_value_of(c, other),
{
}

proof fn lemma_rw_ai_auto_summary(c: Config, v: ConfigValue, other: ConfigKey)
    requires
        spec_kind_of(v) == ValueKind::Bool,
        other != ConfigKey::AiAutoSummary,
    ensures
        spec_value_of(spec_with_value(c, ConfigKey::AiAutoSummary, v), ConfigKey::AiAutoSummary) == v,
        spec_value_of(spec_with_value(c, ConfigKey::AiAutoSummary, v), other) == spec_value_of(c, other),
{
}

proof fn lemma_rw_ai_translation(c: Config, v: ConfigValue, other: ConfigKey)
    requires
        spec_kind_of(v) == ValueKind::Bool,
        other != ConfigKey::AiTranslation,
    ensures
        spec_value_of(spec_with_value(c, ConfigKey::AiTranslation, v), ConfigKey::AiTranslation) == v,
        spec_value_of(spec_with_value(c, ConfigKey::AiTranslation, v), other) == spec_value_of(c, other),
{
}

proof fn lemma_rw_ai_web_search(c: Config, v: ConfigValue, other: ConfigKey)
    requires
        spec_kind_of(v) == ValueKind::Bool,
        other != ConfigKey::AiWebSearch,
    ensures
        spec_value_of(spec_with_value(c, ConfigKey::AiWebSearch, v), ConfigKey::AiWebSearch) == v,
        spec_value_of(spec_with_value(c, ConfigKey::AiWebSearch, v), other) == spec_value_of(c, other),
{
}

proof fn lemma_rw_sensitive_filter(c: Config, v: ConfigValue, other: ConfigKey)
    requires
        spec_kind_of(v) == ValueKind::Bool,
        other != ConfigKey::SensitiveFilter,
    ensures
        spec_value_of(spec_with_value(c, ConfigKey::SensitiveFilter, v), ConfigKey::SensitiveFilter) == v,
        spec_value_of(spec_with_value(c, ConfigKey::SensitiveFilter, v), other) == spec_value_of(c, other),
{
}

proof fn lemma_rw_filter_passwords(c: Config, v: ConfigValue, other: ConfigKey)
    requires
        spec_kind_of(v) == ValueKind::Bool,
        other != ConfigKey::FilterPasswords,
    ensures
        spec_value_of(spec_with_value(c, ConfigKey::FilterPasswords, v), ConfigKey::FilterPasswords) == v,
        spec_value_of(spec_with_value(c, ConfigKey::FilterPasswords, v), other) == spec_value_of(c, other),
{
}

proof fn lemma_rw_filter_bank_cards(c: Config, v: ConfigValue, other: ConfigKey)
    requires
        spec_kind_of(v) == ValueKind::Bool,
        other != ConfigKey::FilterBankCards,
    ensures
        spec_value_of(spec_with_value(c, ConfigKey::FilterBankCards, v), ConfigKey::FilterBankCards) == v,
        spec_value_of(spec_with_value(c, ConfigKey::FilterBankCards, v), other) == spec_value_of(c, other),
{
}

proof fn lemma_rw_filter_id_cards(c: Config, v: ConfigValue, other: ConfigKey)
    requires
        spec_kind_of(v) == ValueKind::Bool,
        other != ConfigKey::FilterIdCards,
    ensures
        spec_value_of(spec_with_value(c, ConfigKey::FilterIdCards, v), ConfigKey::FilterIdCards) == v,
        spec_value_of(spec_with_value(c, ConfigKey::FilterIdCards, v), other) == spec_value_of(c, other),
{
}

proof fn lemma_rw_filter_phone_numbers(c: Config, v: ConfigValue, other: ConfigKey)
    requires
        spec_kind_of(v) == ValueKind::Bool,
        other != ConfigKey::FilterPhoneNumbers,
    ensures
        spec_value_of(spec_with_value(c, ConfigKey::FilterPhoneNumbers, v), ConfigKey::FilterPhoneNumbers) == v,
        spec_value_of(spec_with_value(c, ConfigKey::FilterPhoneNumbers, v), other) == spec_value_of(c, other),
{
}

proof fn lemma_rw_storage_path(c: Config, v: ConfigValue, other: ConfigKey)
    requires
        spec_kind_of(v) == ValueKind::OptText,
        other != ConfigKey::StoragePath,
    ensures
        spec_value_of(spec_with_value(c, ConfigKey::StoragePath, v), ConfigKey::StoragePath) == v,
        spec_value_of(spec_with_value(c, ConfigKey::StoragePath, v), other) == spec_value_of(c, other),
{
}

proof fn lemma_rw_auto_backup(c: Config, v: ConfigValue, other: ConfigKey)
    requires
        spec_kind_of(v) == ValueKind::Bool,
        other != ConfigKey::AutoBackup,
    ensures
        spec_value_of(spec_with_value(c, ConfigKey::AutoBackup, v), ConfigKey::AutoBackup) == v,
        spec_value_of(spec_with_value(c, ConfigKey::AutoBackup, v), other) == spec_value_of(c, other),
{
}

proof fn lemma_rw_backup_frequency(c: Config, v: ConfigValue, other: ConfigKey)
    requires
        spec_kind_of(v) == ValueKind::Text,
        other != ConfigKey::BackupFrequency,
    ensures
        spec_value_of(spec_with_value(c, ConfigKey::BackupFrequency, v), ConfigKey::BackupFrequency) == v,
        spec_value_of(spec_with_value(c, ConfigKey::BackupFrequency, v), other) == spec_value_of(c, other),
{
}

proof fn lemma_rw_last_backup_path(c: Config, v: ConfigValue, other: ConfigKey)
    requires
        spec_kind_of(v) == ValueKind::OptText,
        other != ConfigKey::LastBackupPath,
    ensures
        spec_value_of(spec_with_value(c, ConfigKey::LastBackupPath, v), ConfigKey::LastBackupPath) == v,
        spec_value_of(spec_with_value(c, ConfigKey::LastBackupPath, v), other) == spec_value_of(c, other),
{
}

proof fn lemma_rw_cloud_sync_enabled(c: Config, v: ConfigValue, other: ConfigKey)
    requires
        spec_kind_of(v) == ValueKind::Bool,
        other != ConfigKey::CloudSyncEnabled,
    ensures
        spec_value_of(spec_with_value(c, ConfigKey::CloudSyncEnabled, v), ConfigKey::CloudSyncEnabled) == v,
        spec_value_of(spec_with_value(c, ConfigKey::CloudSyncEnabled, v), other) == spec_value_of(c, other),
{
}

proof fn lemma_rw_sync_frequency(c: Config, v: ConfigValue, other: ConfigKey)
    requires
        spec_kind_of(v) == ValueKind::Text,
        other != ConfigKey::SyncFrequency,
    ensures
        spec_value_of(spec_with_value(c, ConfigKey::SyncFrequency, v), ConfigKey::SyncFrequency) == v,
        spec_value_of(spec_with_value(c, ConfigKey::SyncFrequency, v), other) == spec_value_of(c, other),
{
}

proof fn lemma_rw_sync_content_type(c: Config, v: ConfigValue, other: ConfigKey)
    requires
        spec_kind_of(v) == ValueKind::Text,
        other != ConfigKey::SyncContentType,
    ensures
        spec_value_of(spec_with_value(c, ConfigKey::SyncContentType, v), ConfigKey::SyncContentType) == v,
        spec_value_of(spec_with_value(c, ConfigKey::SyncContentType, v), other) == spec_value_of(c, other),
{
}

proof fn lemma_rw_encrypt_cloud_data(c: Config, v: ConfigValue, other: ConfigKey)
    requires
        spec_kind_of(v) == ValueKind::Bool,
        other != ConfigKey::EncryptCloudData,
    ensures
        spec_value_of(spec_with_value(c, ConfigKey::EncryptCloudData, v), ConfigKey::EncryptCloudData) == v,
        spec_value_of(spec_with_value(c, ConfigKey::EncryptCloudData, v), other) == spec_value_of(c, other),
{
}

proof fn lemma_rw_sync_only_wifi(c: Config, v: ConfigValue, other: ConfigKey)
    requires
        spec_kind_of(v) == ValueKind::Bool,
        other != ConfigKey::SyncOnlyWifi,
    ensures
        spec_value_of(spec_with_value(c, ConfigKey::SyncOnlyWifi, v), ConfigKey::SyncOnlyWifi) == v,
        spec_value_of(spec_with_value(c, ConfigKey::SyncOnlyWifi, v), other) == spec_value_of(c, other),
{
}

proof fn lemma_rw_username(c: Config, v: ConfigValue, other: ConfigKey)
    requires
        spec_kind_of(v) == ValueKind::OptText,
        other != ConfigKey::Username,
    ensures
        spec_value_of(spec_with_value(c, ConfigKey::Username, v), ConfigKey::Username) == v,
        spec_value_of(spec_with_value(c, ConfigKey::Username, v), other) == spec_value_of(c, other),
{
}

proof fn lemma_rw_email(c: Config, v: ConfigValue, other: ConfigKey)
    requires
        spec_kind_of(v) == ValueKind::OptText,
        other != ConfigKey::Email,
    ensures
        spec_value_of(spec_with_value(c, ConfigKey::Email, v), ConfigKey::Email) == v,
        spec_value_of(spec_with_value(c, ConfigKey::Email, v), other) == spec_value_of(c, other),
{
}

proof fn lemma_rw_bio(c: Config, v: ConfigValue, other: ConfigKey)
    requires
        spec_kind_of(v) == ValueKind::OptText,
        other != ConfigKey::Bio,
    ensures
        spec_value_of(spec_with_value(c, ConfigKey::Bio, v), ConfigKey::Bio) == v,
        spec_value_of(spec_with_value(c, ConfigKey::Bio, v), other) == spec_value_of(c, other),
{
}

proof fn lemma_rw_avatar_path(c: Config, v: ConfigValue, other: ConfigKey)
    requires
        spec_kind_of(v) == ValueKind::OptText,
        other != ConfigKey::AvatarPath,
    ensures
        spec_value_of(spec_with_value(c, ConfigKey::AvatarPath, v), ConfigKey::AvatarPath) == v,
        spec_value_of(spec_with_value(c, ConfigKey::AvatarPath, v), other) == spec_value_of(c, other),
{
}

proof fn lemma_rw_ocr_provider(c: Config, v: ConfigValue, other: ConfigKey)
    requires
        spec_kind_of(v) == ValueKind::OptText,
        other != ConfigKey::OcrProvider,
    ensures
        spec_value_of(spec_with_value(c, ConfigKey::OcrProvider, v), ConfigKey::OcrProvider) == v,
        spec_value_of(spec_with_value(c, ConfigKey::OcrProvider, v), other) == spec_value_of(c, other),
{
}

proof fn lemma_rw_ocr_languages(c: Config, v: ConfigValue, other: ConfigKey)
    requires
        spec_kind_of(v) == ValueKind::OptTextList,
        other != ConfigKey::OcrLanguages,
    ensures
        spec_value_of(spec_with_value(c, ConfigKey::OcrLanguages, v), ConfigKey::OcrLanguages) == v,
        spec_value_of(spec_with_value(c, ConfigKey::OcrLanguages, v), other) == spec_value_of(c, other),
{
}

proof fn lemma_rw_ocr_confidence_threshold(c: Config, v: ConfigValue, other: ConfigKey)
    requires
        spec_kind_of(v) == ValueKind::OptFloat,
        other != ConfigKey::OcrConfidenceThreshold,
    ensures
        spec_value_of(spec_with_value(c, ConfigKey::OcrConfidenceThreshold, v), ConfigKey::OcrConfidenceThreshold) == v,
        spec_value_of(spec_with_value(c, ConfigKey::OcrConfidenceThreshold, v), other) == spec_value_of(c, other),
{
}

proof fn lemma_rw_ocr_timeout_secs(c: Config, v: ConfigValue, other: ConfigKey)
    requires
        spec_kind_of(v) == ValueKind::OptU64,
        other != ConfigKey::OcrTimeoutSecs,
    ensures
        spec_value_of(spec_with_value(c, ConfigKey::OcrTimeoutSecs, v), ConfigKey::OcrTimeoutSecs) == v,
        spec_value_of(spec_with_value(c, ConfigKey::OcrTimeoutSecs, v), other) == spec_value_of(c, other),
{
}

/// Reading a setting back after writing it gives the value written, and every other
/// setting keeps the value it had.
pub proof fn lemma_config_read_after_write(c: Config, k: ConfigKey, v: ConfigValue, other: ConfigKey)
    requires
        spec_kind_of(v) == spec_key_kind(k),
        other != k,
    ensures
        spec_value_of(spec_with_value(c, k, v), k) == v,
        spec_value_of(spec_with_value(c, k, v), other) == spec_value_of(c, other),
{
    match k {
        ConfigKey::Autostart => lemma_rw_autostart(c, v, other),
        ConfigKey::TrayIconVisible => lemma_rw_tray_icon_visible(c, v, other),
        ConfigKey::MinimizeToTray => lemma_rw_minimize_to_tray(c, v, other),
        ConfigKey::AutoSave => lemma_rw_auto_save(c, v, other),
        ConfigKey::RetentionDays => lemma_rw_retention_days(c, v, other),
        ConfigKey::GlobalShortcut => lemma_rw_global_shortcut(c, v, other),
        ConfigKey::GlobalShortcut2 => lemma_rw_global_shortcut_2(c, v, other),
        ConfigKey::GlobalShortcut3 => lemma_rw_global_shortcut_3(c, v, other),
        ConfigKey::GlobalShortcut4 => lemma_rw_global_shortcut_4(c, v, other),
        ConfigKey::GlobalShortcut5 => lemma_rw_global_shortcut_5(c, v, other),
        ConfigKey::MaxHistoryItems => lemma_rw_max_history_items(c, v, other),
        ConfigKey::IgnoreShortTextLen => lemma_rw_ignore_short_text_len(c, v, other),
        ConfigKey::IgnoreBigFileMb => lemma_rw_ignore_big_file_mb(c, v, other),
        ConfigKey::IgnoredApps => lemma_rw_ignored_apps(c, v, other),
        ConfigKey::AutoClassify => lemma_rw_auto_classify(c, v, other),
        ConfigKey::OcrAutoRecognition => lemma_rw_ocr_auto_recognition(c, v, other),
        ConfigKey::DeleteConfirmation => lemma_rw_delete_confirmation(c, v, other),
        ConfigKey::KeepFavoritesOnDelete => lemma_rw_keep_favorites_on_delete(c, v, other),
        ConfigKey::AutoSort => lemma_rw_auto_sort(c, v, other),
        ConfigKey::AiEnabled => lemma_rw_ai_enabled(c, v, other),
        ConfigKey::AiProvider => lemma_rw_ai_provider(c, v, other),
        ConfigKey::AiModel => lemma_rw_ai_model(c, v, other),
        ConfigKey::AiBaseUrl => lemma_rw_ai_base_url(c, v, other),
        ConfigKey::AiTemperature => lemma_rw_ai_temperature(c, v, other),
        ConfigKey::AiApiKey => lemma_rw_ai_api_key(c, v, other),
        ConfigKey::AiAutoTag => lemma_rw_ai_auto_tag(c, v, other),
        ConfigKey::AiAutoSummary => lemma_rw_ai_auto_summary(c, v, other),
        ConfigKey::AiTranslation => lemma_rw_ai_translation(c, v, other),
        ConfigKey::AiWebSearch => lemma_rw_ai_web_search(c, v, other),
        ConfigKey::SensitiveFilter => lemma_rw_sensitive_filter(c, v, other),
        ConfigKey::FilterPasswords => lemma_rw_filter_passwords(c, v, other),
        ConfigKey::FilterBankCards => lemma_rw_filter_bank_cards(c, v, other),
        ConfigKey::FilterIdCards => lemma_rw_filter_id_cards(c, v, other),
        ConfigKey::FilterPhoneNumbers => lemma_rw_filter_phone_numbers(c, v, other),
        ConfigKey::StoragePath => lemma_rw_storage_path(c, v, other),
        ConfigKey::AutoBackup => lemma_rw_auto_backup(c, v, other),
        ConfigKey::BackupFrequency => lemma_rw_backup_frequency(c, v, other),
        ConfigKey::LastBackupPath => lemma_rw_last_backup_path(c, v, other),
        ConfigKey::CloudSyncEnabled => lemma_rw_cloud_sync_enabled(c, v, other),
        ConfigKey::SyncFrequency => lemma_rw_sync_frequency(c, v, other),
        ConfigKey::SyncContentType => lemma_rw_sync_content_type(c, v, other),
        ConfigKey::EncryptCloudData => lemma_rw_encrypt_cloud_data(c, v, other),
        ConfigKey::SyncOnlyWifi => lemma_rw_sync_only_wifi(c, v, other),
        ConfigKey::Username => lemma_rw_username(c, v, other),
        ConfigKey::Email => lemma_rw_email(c, v, other),
        ConfigKey::Bio => lemma_rw_bio(c, v, other),
        ConfigKey::AvatarPath => lemma_rw_avatar_path(c, v, other),
        ConfigKey::OcrProvider => lemma_rw_ocr_provider(c, v, other),
        ConfigKey::OcrLanguages => lemma_rw_ocr_languages(c, v, other),
        ConfigKey::OcrConfidenceThreshold => lemma_rw_ocr_confidence_threshold(c, v, other),
        ConfigKey::OcrTimeoutSecs => lemma_rw_ocr_timeout_secs(c, v, other),
    }
}

/// Every stored value has the shape of its key.
pub proof fn lemma_config_value_kinds(c: Config, k: ConfigKey)
    ensures
        spec_kind_of(spec_value_of(c, k)) == spec_key_kind(k),
{
}


/// No two settings share a name, so a name determines its setting.
pub proof fn lemma_config_key_names_distinct()
    ensures
        forall|a: ConfigKey, b: ConfigKey| #[trigger] spec_key_name(a) == #[trigger] spec_key_name(b) ==> a == b,
{
    reveal_strlit("autostart");
    reveal_strlit("tray_icon_visible");
    reveal_strlit("minimize_to_tray");
    reveal_strlit("auto_save");
    reveal_strlit("retention_days");
    reveal_strlit("global_shortcut");
    reveal_strlit("global_shortcut_2");
    reveal_strlit("global_shortcut_3");
    reveal_strlit("global_shortcut_4");
    reveal_strlit("global_shortcut_5");
    reveal_strlit("max_history_items");
    reveal_strlit("ignore_short_text_len");
    reveal_strlit("ignore_big_file_mb");
    reveal_strlit("ignored_apps");
    reveal_strlit("auto_classify");
    reveal_strlit("ocr_auto_recognition");
    reveal_strlit("delete_confirmation");
    reveal_strlit("keep_favorites_on_delete");
    reveal_strlit("auto_sort");
    reveal_strlit("ai_enabled");
    reveal_strlit("ai_provider");
    reveal_strlit("ai_model");
    reveal_strlit("ai_base_url");
    reveal_strlit("ai_temperature");
    reveal_strlit("ai_api_key");
    reveal_strlit("ai_auto_tag");
    reveal_strlit("ai_auto_summary");
    reveal_strlit("ai_translation");
    reveal_strlit("ai_web_search");
    reveal_strlit("sensitive_filter");
    reveal_strlit("filter_passwords");
    reveal_strlit("filter_bank_cards");
    reveal_strlit("filter_id_cards");
    reveal_strlit("filter_phone_numbers");
    reveal_strlit("storage_path");
    reveal_strlit("auto_backup");
    reveal_strlit("backup_frequency");
    reveal_strlit("last_backup_path");
    reveal_strlit("cloud_sync_enabled");
    reveal_strlit("sync_frequency");
    reveal_strlit("sync_content_type");
    reveal_strlit("encrypt_cloud_data");
    reveal_strlit("sync_only_wifi");
    reveal_strlit("username");
    reveal_strlit("email");
    reveal_strlit("bio");
    reveal_strlit("avatar_path");
    reveal_strlit("ocr_provider");
    reveal_strlit("ocr_languages");
    reveal_strlit("ocr_confidence_threshold");
    reveal_strlit("ocr_timeout_secs");
    assert(spec_key_name(ConfigKey::Autostart)[4] != spec_key_name(ConfigKey::AutoSave)[4]);
    assert(spec_key_name(ConfigKey::Autostart)[4] != spec_key_name(ConfigKey::AutoSort)[4]);
    assert(spec_key_name(ConfigKey::AutoSave)[6] != spec_key_name(ConfigKey::AutoSort)[6]);
    assert(spec_key_name(ConfigKey::TrayIconVisible)[0] != spec_key_name(ConfigKey::GlobalShortcut2)[0]);
    assert(spec_key_name(ConfigKey::TrayIconVisible)[0] != spec_key_name(ConfigKey::GlobalShortcut3)[0]);
    assert(spec_key_name(ConfigKey::TrayIconVisible)[0] != spec_key_name(ConfigKey::GlobalShortcut4)[0]);
    assert(spec_key_name(ConfigKey::TrayIconVisible)[0] != spec_key_name(ConfigKey::GlobalShortcut5)[0]);
    assert(spec_key_name(ConfigKey::TrayIconVisible)[0] != spec_key_name(ConfigKey::MaxHistoryItems)[0]);
    assert(spec_key_name(ConfigKey::TrayIconVisible)[0] != spec_key_name(ConfigKey::FilterBankCards)[0]);
    assert(spec_key_name(ConfigKey::TrayIconVisible)[0] != spec_key_name(ConfigKey::SyncContentType)[0]);
    assert(spec_key_name(ConfigKey::GlobalShortcut2)[16] != spec_key_name(ConfigKey::GlobalShortcut3)[16]);
    assert(spec_key_name(ConfigKey::GlobalShortcut2)[16] != spec_key_name(ConfigKey::GlobalShortcut4)[16]);
    assert(spec_key_name(ConfigKey::GlobalShortcut2)[16] != spec_key_name(ConfigKey::GlobalShortcut5)[16]);
    assert(spec_key_name(ConfigKey::GlobalShortcut2)[0] != spec_key_name(ConfigKey::MaxHistoryItems)[0]);
    assert(spec_key_name(ConfigKey::GlobalShortcut2)[0] != spec_key_name(ConfigKey::FilterBankCards)[0]);
    assert(spec_key_name(ConfigKey::GlobalShortcut2)[0] != spec_key_name(ConfigKey::SyncContentType)[0]);
    assert(spec_key_name(ConfigKey::GlobalShortcut3)[16] != spec_key_name(ConfigKey::GlobalShortcut4)[16]);
    assert(spec_key_name(ConfigKey::GlobalShortcut3)[16] != spec_key_name(ConfigKey::GlobalShortcut5)[16]);
    assert(spec_key_name(ConfigKey::GlobalShortcut3)[0] != spec_key_name(ConfigKey::MaxHistoryItems)[0]);
    assert(spec_key_name(ConfigKey::GlobalShortcut3)[0] != spec_key_name(ConfigKey::FilterBankCards)[0]);
    assert(spec_key_name(ConfigKey::GlobalShortcut3)[0] != spec_key_name(ConfigKey::SyncContentType)[0]);
    assert(spec_key_name(ConfigKey::GlobalShortcut4)[16] != spec_key_name(ConfigKey::GlobalShortcut5)[16]);
    assert(spec_key_name(ConfigKey::GlobalShortcut4)[0] != spec_key_name(ConfigKey::MaxHistoryItems)[0]);
    assert(spec_key_name(ConfigKey::GlobalShortcut4)[0] != spec_key_name(ConfigKey::FilterBankCards)[0]);
    assert(spec_key_name(ConfigKey::GlobalShortcut4)[0] != spec_key_name(ConfigKey::SyncContentType)[0]);
    assert(spec_key_name(ConfigKey::GlobalShortcut5)[0] != spec_key_name(ConfigKey::MaxHistoryItems)[0]);
    assert(spec_key_name(ConfigKey::GlobalShortcut5)[0] != spec_key_name(ConfigKey::FilterBankCards)[0]);
    assert(spec_key_name(ConfigKey::GlobalShortcut5)[0] != spec_key_name(ConfigKey::SyncContentType)[0]);
    assert(spec_key_name(ConfigKey::MaxHistoryItems)[0] != spec_key_name(ConfigKey::FilterBankCards)[0]);
    assert(spec_key_name(ConfigKey::MaxHistoryItems)[0] != spec_key_name(ConfigKey::SyncContentType)[0]);
    assert(spec_key_name(ConfigKey::FilterBankCards)[0] != spec_key_name(ConfigKey::SyncContentType)[0]);
    assert(spec_key_name(ConfigKey::MinimizeToTray)[0] != spec_key_name(ConfigKey::SensitiveFilter)[0]);
    assert(spec_key_name(ConfigKey::MinimizeToTray)[0] != spec_key_name(ConfigKey::FilterPasswords)[0]);
    assert(spec_key_name(ConfigKey::MinimizeToTray)[0] != spec_key_name(ConfigKey::BackupFrequency)[0]);
    assert(spec_key_name(ConfigKey::MinimizeToTray)[0] != spec_key_name(ConfigKey::LastBackupPath)[0]);
    assert(spec_key_name(ConfigKey::MinimizeToTray)[0] != spec_key_name(ConfigKey::OcrTimeoutSecs)[0]);
    assert(spec_key_name(ConfigKey::SensitiveFilter)[0] != spec_key_name(ConfigKey::FilterPasswords)[0]);
    assert(spec_key_name(ConfigKey::SensitiveFilter)[0] != spec_key_name(ConfigKey::BackupFrequency)[0]);
    assert(spec_key_name(ConfigKey::SensitiveFilter)[0] != spec_key_name(ConfigKey::LastBackupPath)[0]);
    assert(spec_key_name(ConfigKey::SensitiveFilter)[0] != spec_key_name(ConfigKey::OcrTimeoutSecs)[0]);
    assert(spec_key_name(ConfigKey::FilterPasswords)[0] != spec_key_name(ConfigKey::BackupFrequency)[0]);
    assert(spec_key_name(ConfigKey::FilterPasswords)[0] != spec_key_name(ConfigKey::LastBackupPath)[0]);
    assert(spec_key_name(ConfigKey::FilterPasswords)[0] != spec_key_name(ConfigKey::OcrTimeoutSecs)[0]);
    assert(spec_key_name(ConfigKey::BackupFrequency)[0] != spec_key_name(ConfigKey::LastBackupPath)[0]);
    assert(spec_key_name(ConfigKey::BackupFrequency)[0] != spec_key_name(ConfigKey::OcrTimeoutSecs)[0]);
    assert(spec_key_name(ConfigKey::LastBackupPath)[0] != spec_key_name(ConfigKey::OcrTimeoutSecs)[0]);
    assert(spec_key_name(ConfigKey::RetentionDays)[0] != spec_key_name(ConfigKey::AiTemperature)[0]);
    assert(spec_key_name(ConfigKey::RetentionDays)[0] != spec_key_name(ConfigKey::AiTranslation)[0]);
    assert(spec_key_name(ConfigKey::RetentionDays)[0] != spec_key_name(ConfigKey::SyncFrequency)[0]);
    assert(spec_key_name(ConfigKey::RetentionDays)[0] != spec_key_name(ConfigKey::SyncOnlyWifi)[0]);
    assert(spec_key_name(ConfigKey::AiTemperature)[4] != spec_key_name(ConfigKey::AiTranslation)[4]);
    assert(spec_key_name(ConfigKey::AiTemperature)[0] != spec_key_name(ConfigKey::SyncFrequency)[0]);
    assert(spec_key_name(ConfigKey::AiTemperature)[0] != spec_key_name(ConfigKey::SyncOnlyWifi)[0]);
    assert(spec_key_name(ConfigKey::AiTranslation)[0] != spec_key_name(ConfigKey::SyncFrequency)[0]);
    assert(spec_key_name(ConfigKey::AiTranslation)[0] != spec_key_name(ConfigKey::SyncOnlyWifi)[0]);
    assert(spec_key_name(ConfigKey::SyncFrequency)[5] != spec_key_name(ConfigKey::SyncOnlyWifi)[5]);
    assert(spec_key_name(ConfigKey::GlobalShortcut)[0] != spec_key_name(ConfigKey::AiAutoSummary)[0]);
    assert(spec_key_name(ConfigKey::GlobalShortcut)[0] != spec_key_name(ConfigKey::FilterIdCards)[0]);
    assert(spec_key_name(ConfigKey::AiAutoSummary)[0] != spec_key_name(ConfigKey::FilterIdCards)[0]);
    assert(spec_key_name(ConfigKey::IgnoreBigFileMb)[0] != spec_key_name(ConfigKey::CloudSyncEnabled)[0]);
    assert(spec_key_name(ConfigKey::IgnoreBigFileMb)[0] != spec_key_name(ConfigKey::EncryptCloudData)[0]);
    assert(spec_key_name(ConfigKey::CloudSyncEnabled)[0] != spec_key_name(ConfigKey::EncryptCloudData)[0]);
    assert(spec_key_name(ConfigKey::IgnoredApps)[0] != spec_key_name(ConfigKey::StoragePath)[0]);
    assert(spec_key_name(ConfigKey::IgnoredApps)[0] != spec_key_name(ConfigKey::OcrProvider)[0]);
    assert(spec_key_name(ConfigKey::StoragePath)[0] != spec_key_name(ConfigKey::OcrProvider)[0]);
    assert(spec_key_name(ConfigKey::AutoClassify)[1] != spec_key_name(ConfigKey::AiWebSearch)[1]);
    assert(spec_key_name(ConfigKey::AutoClassify)[0] != spec_key_name(ConfigKey::OcrLanguages)[0]);
    assert(spec_key_name(ConfigKey::AiWebSearch)[0] != spec_key_name(ConfigKey::OcrLanguages)[0]);
    assert(spec_key_name(ConfigKey::OcrAutoRecognition)[0] != spec_key_name(ConfigKey::FilterPhoneNumbers)[0]);
    assert(spec_key_name(ConfigKey::KeepFavoritesOnDelete)[0] != spec_key_name(ConfigKey::OcrConfidenceThreshold)[0]);
    assert(spec_key_name(ConfigKey::AiEnabled)[3] != spec_key_name(ConfigKey::AiApiKey)[3]);
    assert(spec_key_name(ConfigKey::AiProvider)[3] != spec_key_name(ConfigKey::AiBaseUrl)[3]);
    assert(spec_key_name(ConfigKey::AiProvider)[3] != spec_key_name(ConfigKey::AiAutoTag)[3]);
    assert(spec_key_name(ConfigKey::AiProvider)[1] != spec_key_name(ConfigKey::AutoBackup)[1]);
    assert(spec_key_name(ConfigKey::AiProvider)[1] != spec_key_name(ConfigKey::AvatarPath)[1]);
    assert(spec_key_name(ConfigKey::AiBaseUrl)[3] != spec_key_name(ConfigKey::AiAutoTag)[3]);
    assert(spec_key_name(ConfigKey::AiBaseUrl)[1] != spec_key_name(ConfigKey::AutoBackup)[1]);
    assert(spec_key_name(ConfigKey::AiBaseUrl)[1] != spec_key_name(ConfigKey::AvatarPath)[1]);
    assert(spec_key_name(ConfigKey::AiAutoTag)[1] != spec_key_name(ConfigKey::AutoBackup)[1]);
    assert(spec_key_name(ConfigKey::AiAutoTag)[1] != spec_key_name(ConfigKey::AvatarPath)[1]);
    assert(spec_key_name(ConfigKey::AutoBackup)[1] != spec_key_name(ConfigKey::AvatarPath)[1]);
    assert(spec_key_name(ConfigKey::AiModel)[0] != spec_key_name(ConfigKey::Username)[0]);
    assert forall|a: ConfigKey, b: ConfigKey| #[trigger] spec_key_name(a) == #[trigger] spec_key_name(b) implies a == b by {
        if spec_key_name(a) == spec_key_name(b) && a != b {
            assert(spec_key_name(a).len() == spec_key_name(b).len());
        }
    }
}

/// The name of `k` belongs to `k` alone.
pub proof fn lemma_key_names_distinct_at(k: ConfigKey)
    ensures
        forall|b: ConfigKey| #[trigger] spec_key_name(b) == spec_key_name(k) ==> b == k,
{
    lemma_config_key_names_distinct();
}

/// Looking a setting's own name up gives that setting back.
pub proof fn lemma_parse_config_key_roundtrip(k: ConfigKey)
    ensures
        parse_result(spec_key_name(k)) == Some(k),
{
    lemma_key_names_distinct_at(k);
    assert(spec_key_name(k) == spec_key_name(k));
}

/// Reads one setting by name. An unknown name gives "Invalid config key: " followed by
/// the name; settings not yet loaded give "Config not initialized".
pub fn get_config_item(cfg: Option<&Config>, key: &str) -> (res: Result<ConfigValue, String>)
    ensures
        match parse_result(key@) {
            None => res is Err && res->Err_0@ == "Invalid config key: "@ + key@,
            Some(k) => match cfg {
                None => res is Err && res->Err_0@ == "Config not initialized"@,
                Some(c) => res is Ok && res->Ok_0@ == spec_value_of(*c, k)@,
            },
        },
{
    let k = match parse_config_key(key) {
        Some(k) => k,
        None => {
            let mut msg = "Invalid config key: ".to_string();
            msg.append(key);
            return Err(msg);
        },
    };
    proof {
        lemma_key_names_distinct_at(k);
    }
    match cfg {
        None => Err("Config not initialized".to_string()),
        Some(c) => Ok(config_value_of(c, &k)),
    }
}

/// The setting named `s`, if there is one.
pub open spec fn parse_result(s: Seq<char>) -> Option<ConfigKey> {
    if exists|k: ConfigKey| spec_key_name(k) == s {
        Some(choose|k: ConfigKey| spec_key_name(k) == s)
    } else {
        None
    }
}

} // verus!

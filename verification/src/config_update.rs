//! Changing one setting on request: the checks made before anything is written, the
//! special settings (start-up with the system, the tray icon, the storage directory)
//! and the replies, as steps that the caller performs one after the other.
use vstd::prelude::*;
use crate::config::{
    lemma_key_names_distinct_at, parse_config_key, parse_result, spec_key_kind, spec_key_name,
    spec_kind_of, spec_with_value, update_simple_config_item, with_autostart, with_storage_path, Config, ConfigKey, ConfigValue,
};
use crate::paths::{same_path, spec_same_path};
use crate::text::{is_blank, spec_is_blank, spec_replace};
use vstd::string::StringExecFns;

verus! {

broadcast use vstd::string::group_string_axioms;

/// What the caller does next after a setting has been looked at.
#[derive(Debug, PartialEq)]
pub enum ConfigPlan {
    /// Nothing more: answer with this message.
    Reply(String),
    /// The settings changed in memory: save them and answer by `save_reply`.
    Save,
    /// The tray icon's visibility changed to this value: show or hide the icon, then save.
    ApplyTrayThenSave(bool),
    /// Switch start-up with the system on (`true`) or off, then call `autostart_applied`.
    SwitchAutostart(bool),
    /// Move the data to this storage directory, stage by stage with `storage_move_step`.
    MoveStorage(String),
}

/// The text of a storage-path value: a string, whether or not it was optional.
pub open spec fn storage_value(value: Option<ConfigValue>) -> Option<Seq<char>> {
    match value {
        Some(ConfigValue::OptText(Some(s))) => Some(s@),
        Some(ConfigValue::Text(s)) => Some(s@),
        _ => None,
    }
}

/// The first step of changing the setting named `key` to `value` (`None` when the value
/// given does not read as the setting's type), with `current_storage` the directory where
/// data is kept now. An unknown name, a bad value, an empty or unchanged storage
/// directory are answered at once and leave the settings as they are; start-up with the
/// system and the storage directory are handed on without a change; any other setting is
/// written when the value has its type, and is then to be saved.
pub fn begin_config_update(
    cfg: &mut Config,
    key: &str,
    value: Option<ConfigValue>,
    current_storage: &str,
) -> (res: ConfigPlan)
    ensures
        parse_result(key@) is None ==> *final(cfg) == *old(cfg) && res is Reply && res->Reply_0@
            == "Invalid config key: "@ + key@,
        parse_result(key@) == Some(ConfigKey::StoragePath) ==> *final(cfg) == *old(cfg) && match storage_value(value) {
            None => res is Reply && res->Reply_0@ == "Invalid storage path value"@,
            Some(p) => if spec_is_blank(p) {
                res is Reply && res->Reply_0@ == "Storage path cannot be empty"@
            } else if spec_same_path(current_storage@, p) {
                res is Reply && res->Reply_0@ == "Storage path unchanged"@
            } else {
                res is MoveStorage && res->MoveStorage_0@ == p
            },
        },
        parse_result(key@) == Some(ConfigKey::Autostart) ==> *final(cfg) == *old(cfg) && match value {
            Some(ConfigValue::Bool(b)) => res matches ConfigPlan::SwitchAutostart(x) && x == b,
            _ => res is Reply && res->Reply_0@ == "Invalid type for key '"@ + key@ + "'"@,
        },
        match parse_result(key@) {
            Some(k) => (k != ConfigKey::StoragePath && k != ConfigKey::Autostart) ==> match value {
                Some(v) => if spec_kind_of(v) == spec_key_kind(k) {
                    &&& *final(cfg) == spec_with_value(*old(cfg), k, v)
                    &&& k == ConfigKey::TrayIconVisible ==> (v matches ConfigValue::Bool(x) && res
                        == ConfigPlan::ApplyTrayThenSave(x))
                    &&& k != ConfigKey::TrayIconVisible ==> res is Save
                } else {
                    *final(cfg) == *old(cfg) && res is Reply && res->Reply_0@
                        == "Invalid type for config key"@
                },
                None => *final(cfg) == *old(cfg) && res is Reply && res->Reply_0@
                    == "Invalid type for config key"@,
            },
            None => true,
        },
{
    let k = match parse_config_key(key) {
        Some(k) => k,
        None => {
            let mut msg = "Invalid config key: ".to_string();
            msg.append(key);
            return ConfigPlan::Reply(msg);
        },
    };
    proof {
        lemma_key_names_distinct_at(k);
    }
    if k == ConfigKey::StoragePath {
        let p = match value {
            Some(ConfigValue::OptText(Some(s))) => s,
            Some(ConfigValue::Text(s)) => s,
            _ => {
                return ConfigPlan::Reply("Invalid storage path value".to_string());
            },
        };
        if is_blank(p.as_str()) {
            return ConfigPlan::Reply("Storage path cannot be empty".to_string());
        }
        if same_path(current_storage, p.as_str()) {
            return ConfigPlan::Reply("Storage path unchanged".to_string());
        }
        return ConfigPlan::MoveStorage(p);
    }
    let v = match value {
        Some(v) => v,
        None => {
            if k == ConfigKey::Autostart {
                let mut msg = "Invalid type for key '".to_string();
                msg.append(key);
                msg.append("'");
                return ConfigPlan::Reply(msg);
            }
            return ConfigPlan::Reply("Invalid type for config key".to_string());
        },
    };
    let enable = match &v {
        ConfigValue::Bool(b) => Some(*b),
        _ => None,
    };
    match update_simple_config_item(cfg, &k, v) {
        Ok(true) => {
            if k == ConfigKey::TrayIconVisible {
                match enable {
                    Some(b) => ConfigPlan::ApplyTrayThenSave(b),
                    None => ConfigPlan::Save,
                }
            } else {
                ConfigPlan::Save
            }
        },
        Ok(false) => match enable {
            Some(b) => ConfigPlan::SwitchAutostart(b),
            None => {
                let mut msg = "Invalid type for key '".to_string();
                msg.append(key);
                msg.append("'");
                ConfigPlan::Reply(msg)
            },
        },
        Err(e) => ConfigPlan::Reply(e),
    }
}

/// The answer once the settings were saved, or could not be.
pub fn save_reply(outcome: Result<(), String>) -> (res: String)
    ensures
        outcome is Ok ==> res@ == "config updated"@,
        outcome matches Err(e) ==> res@ == "failed to save config: "@ + e@,
{
    match outcome {
        Ok(()) => "config updated".to_string(),
        Err(e) => {
            let mut msg = "failed to save config: ".to_string();
            msg.append(e.as_str());
            msg
        },
    }
}

/// After start-up with the system was switched (or could not be): on success the setting
/// is written and the settings are to be saved; on failure the answer says why and the
/// settings stay as they are.
pub fn autostart_applied(cfg: &mut Config, enable: bool, outcome: Result<(), String>) -> (res:
    ConfigPlan)
    ensures
        outcome is Ok ==> res is Save && *final(cfg) == with_autostart(*old(cfg), enable),
        outcome matches Err(e) ==> *final(cfg) == *old(cfg) && res is Reply && res->Reply_0@
            == "Failed to change autostart: "@ + e@,
{
    match outcome {
        Ok(()) => {
            cfg.autostart = enable;
            ConfigPlan::Save
        },
        Err(e) => {
            let mut msg = "Failed to change autostart: ".to_string();
            msg.append(e.as_str());
            ConfigPlan::Reply(msg)
        },
    }
}

/// The stages of moving the storage directory, in the order they run.
#[derive(Debug, Clone, Copy, PartialEq, Eq, Structural)]
pub enum MoveStage {
    /// Create the new directory.
    CreateDir,
    /// Save the current settings where they are.
    SaveCurrent,
    /// Copy the database and the stored files over and remove the old files folder.
    Migrate,
    /// Rewrite the stored paths of files, images and folders.
    RewritePaths,
    /// Point the settings file at the new directory.
    SwitchConfigPath,
    /// Save the settings in the new directory.
    SaveNew,
}

/// What follows a stage of the move.
#[derive(Debug, PartialEq)]
pub enum MoveStep {
    /// Run this stage next.
    Next(MoveStage),
    /// The move stops with this answer; the settings file is to be pointed back at its
    /// old place when `restore_config_path` holds.
    Fail { message: String, restore_config_path: bool },
    /// The move is complete: point the database at the new directory and answer
    /// "config updated and data migrated".
    Done,
}

/// `s` with backslashes turned into forward slashes.
pub open spec fn forward_slashes(s: Seq<char>) -> Seq<char> {
    spec_replace(s, "\\"@, "/"@)
}

/// The stage after `stage` when the move to `new_path` succeeds at each step.
pub open spec fn next_stage(stage: MoveStage) -> Option<MoveStage> {
    match stage {
        MoveStage::CreateDir => Some(MoveStage::SaveCurrent),
        MoveStage::SaveCurrent => Some(MoveStage::Migrate),
        MoveStage::Migrate => Some(MoveStage::RewritePaths),
        MoveStage::RewritePaths => Some(MoveStage::SwitchConfigPath),
        MoveStage::SwitchConfigPath => Some(MoveStage::SaveNew),
        MoveStage::SaveNew => None,
    }
}

/// The message with which a failed stage stops the move, after the error's own text.
pub open spec fn stage_failure(stage: MoveStage) -> Seq<char> {
    match stage {
        MoveStage::CreateDir => "Failed to create storage path: "@,
        MoveStage::SaveCurrent => "Failed to save current config before migration: "@,
        MoveStage::Migrate => "Data migration failed: "@,
        MoveStage::RewritePaths => Seq::empty(),
        MoveStage::SwitchConfigPath => "Failed to set config path"@,
        MoveStage::SaveNew => "failed to save config: "@,
    }
}

/// The message with which `stage` stops the move after failing with `e`.
fn stage_failure_message(stage: MoveStage, e: String) -> (res: String)
    requires
        stage != MoveStage::RewritePaths,
    ensures
        res@ == if stage == MoveStage::SwitchConfigPath {
            stage_failure(stage)
        } else {
            stage_failure(stage) + e@
        },
{
    let mut message = match stage {
        MoveStage::CreateDir => "Failed to create storage path: ".to_string(),
        MoveStage::SaveCurrent => "Failed to save current config before migration: ".to_string(),
        MoveStage::Migrate => "Data migration failed: ".to_string(),
        MoveStage::SwitchConfigPath => {
            return "Failed to set config path".to_string();
        },
        _ => "failed to save config: ".to_string(),
    };
    message.append(e.as_str());
    message
}

/// Records `new_path`, with forward slashes, as the storage directory.
fn record_storage_path(cfg: &mut Config, new_path: &str)
    ensures
        final(cfg).storage_path is Some,
        final(cfg).storage_path->0@ == forward_slashes(new_path@),
        *final(cfg) == with_storage_path(*old(cfg), final(cfg).storage_path),
{
    let p = crate::paths::normalize_to_forward_slashes(new_path);
    cfg.storage_path = Some(p);
}

/// What follows `stage` of moving the storage directory to `new_path`, given how the
/// stage went. A failure to create the directory, to save the settings first or to copy
/// the data stops the move with its message; the result of rewriting the stored paths is
/// not waited on, and the settings then record the new directory (with forward slashes);
/// a failure to switch the settings file or to save there stops the move and points the
/// settings file back; a successful save completes it.
pub fn storage_move_step(
    cfg: &mut Config,
    new_path: &str,
    stage: MoveStage,
    outcome: Result<(), String>,
) -> (res: MoveStep)
    ensures
        stage != MoveStage::RewritePaths ==> *final(cfg) == *old(cfg),
        stage == MoveStage::RewritePaths ==> *final(cfg) == with_storage_path(
            *old(cfg),
            final(cfg).storage_path,
        ) && final(cfg).storage_path is Some && final(cfg).storage_path->0@ == forward_slashes(
            new_path@,
        ) && res == MoveStep::Next(MoveStage::SwitchConfigPath),
        stage != MoveStage::RewritePaths && outcome is Ok ==> match next_stage(stage) {
            Some(s) => res == MoveStep::Next(s),
            None => res is Done,
        },
        match outcome {
            Err(e) => stage != MoveStage::RewritePaths ==> (res matches MoveStep::Fail {
                message,
                restore_config_path,
            } && restore_config_path == (stage == MoveStage::SwitchConfigPath || stage
                == MoveStage::SaveNew) && message@ == if stage == MoveStage::SwitchConfigPath {
                stage_failure(stage)
            } else {
                stage_failure(stage) + e@
            }),
            Ok(_) => true,
        },
{
    match stage {
        MoveStage::RewritePaths => {
            record_storage_path(cfg, new_path);
            MoveStep::Next(MoveStage::SwitchConfigPath)
        },
        _ => match outcome {
            Ok(()) => match stage {
                MoveStage::CreateDir => MoveStep::Next(MoveStage::SaveCurrent),
                MoveStage::SaveCurrent => MoveStep::Next(MoveStage::Migrate),
                MoveStage::Migrate => MoveStep::Next(MoveStage::RewritePaths),
                MoveStage::SwitchConfigPath => MoveStep::Next(MoveStage::SaveNew),
                _ => MoveStep::Done,
            },
            Err(e) => MoveStep::Fail {
                message: stage_failure_message(stage, e),
                restore_config_path: stage == MoveStage::SwitchConfigPath || stage == MoveStage::SaveNew,
            },
        },
    }
}

/// The answer of a completed move.
pub const MOVE_DONE_REPLY: &'static str = "config updated and data migrated";

/// A move in which every stage succeeds runs the stages in their order, from creating
/// the directory to saving the settings there, and then completes.
pub proof fn lemma_move_runs_every_stage()
    ensures
        next_stage(MoveStage::CreateDir) == Some(MoveStage::SaveCurrent),
        next_stage(MoveStage::SaveCurrent) == Some(MoveStage::Migrate),
        next_stage(MoveStage::Migrate) == Some(MoveStage::RewritePaths),
        next_stage(MoveStage::RewritePaths) == Some(MoveStage::SwitchConfigPath),
        next_stage(MoveStage::SwitchConfigPath) == Some(MoveStage::SaveNew),
        next_stage(MoveStage::SaveNew) is None,
{
}

/// Changing a setting from within the application, where start-up with the system cannot
/// be switched: `Ok(())` means the setting was written and the settings are to be saved.
/// An unknown name gives "Invalid config key: " and the name; start-up with the system
/// gives "Config key '..' requires AppHandle context"; a value of another type gives
/// "Invalid type for config key".
pub fn begin_internal_update(cfg: &mut Config, key: &str, value: Option<ConfigValue>) -> (res:
    Result<(), String>)
    ensures
        parse_result(key@) is None ==> *final(cfg) == *old(cfg) && res is Err && res->Err_0@
            == "Invalid config key: "@ + key@,
        parse_result(key@) == Some(ConfigKey::Autostart) ==> *final(cfg) == *old(cfg) && res is Err
            && res->Err_0@ == "Config key '"@ + key@ + "' requires AppHandle context"@,
        match parse_result(key@) {
            Some(k) => k != ConfigKey::Autostart ==> match value {
                Some(v) => if spec_kind_of(v) == spec_key_kind(k) {
                    res is Ok && *final(cfg) == spec_with_value(*old(cfg), k, v)
                } else {
                    *final(cfg) == *old(cfg) && res is Err && res->Err_0@
                        == "Invalid type for config key"@
                },
                None => *final(cfg) == *old(cfg) && res is Err && res->Err_0@
                    == "Invalid type for config key"@,
            },
            None => true,
        },
{
    let k = match parse_config_key(key) {
        Some(k) => k,
        None => {
            let mut msg = "Invalid config key: ".to_string();
            msg.append(key);
            return Err(msg);
        },
    };
    proof {
        lemma_key_names_distinct_at(k);
    }
    let requires_app = {
        let mut msg = "Config key '".to_string();
        msg.append(key);
        msg.append("' requires AppHandle context");
        msg
    };
    let v = match value {
        Some(v) => v,
        None => {
            if k == ConfigKey::Autostart {
                return Err(requires_app);
            }
            return Err("Invalid type for config key".to_string());
        },
    };
    match update_simple_config_item(cfg, &k, v) {
        Ok(true) => Ok(()),
        Ok(false) => Err(requires_app),
        Err(e) => Err(e),
    }
}

} // verus!

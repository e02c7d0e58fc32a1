//! Core logic of the SmartPaste clipboard manager: the clipboard record model,
//! shortcut bookkeeping, configuration keys and values, privacy detection,
//! storage queries and path rules, the clipboard monitor's decisions and the
//! OCR settings, each with its contract.
pub mod text;
pub mod clipboard;
pub mod shortcuts;
pub mod config;
pub mod paths;
pub mod privacy;
pub mod storage;
pub mod queries;
pub mod config_update;
pub mod monitor;
pub mod ocr;
pub mod files;
pub mod input;

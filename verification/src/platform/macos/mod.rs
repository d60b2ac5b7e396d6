//! The client on macOS.

pub mod app_service;
pub mod backup_exclusion;
pub mod completing;
pub mod lifecycle;
pub mod logins;
pub mod managing;
pub mod opening;
pub mod operation_lock;
pub mod paths;
pub mod preferences;
pub mod private_files;
pub mod process;
pub mod recovery;
pub mod saved_accounts;
pub mod secure_fs;
pub mod secure_snapshot;
pub mod slot_safety;
pub mod switching;
pub mod transactions;
pub mod unix_path;

//! The client on Windows.

pub mod app_service;
pub mod authentication;
pub mod capturing;
pub mod completing;
pub mod config;
pub mod crash_safety;
pub mod login_session;
pub mod logins;
pub mod managing;
pub mod opening;
pub mod operation_lock;
pub mod outcomes;
pub mod paths;
pub mod process;
pub mod recovering;
pub mod recovery;
pub mod reparse_tree;
pub mod restore;
pub mod saved_accounts;
pub mod snapshot;
pub mod snapshot_store;
pub mod switching;
pub mod transactions;
pub mod window_icon;

//! Account switching for the Battle.net desktop client: the rules by which
//! accounts are found, saved, switched to, logged in and recovered.

pub mod account_reader;
pub mod commands;
pub mod contracts;
pub mod data_store;
pub mod error;
pub mod json;
pub mod login_completion;
pub mod ordered;
pub mod outside;
pub mod platform;
pub mod property_list;
pub mod service_common;
pub mod step;
pub mod text;
pub mod tree_walk;

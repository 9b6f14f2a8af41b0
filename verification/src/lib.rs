//! The decisions of a desktop application that checks grammar in the text areas of other
//! applications: which application is looked at and when, what the menu bar and the windows
//! do, how the highlighter process is started, served and stopped, and how its settings are
//! fetched and kept.
//!
//! The library holds no handle to the system. Where a decision is followed by work on the
//! system, it is an action that the caller performs, and what came of it is handed back.

pub mod accessibility;
pub mod app_name;
pub mod cli;
pub mod config;
pub mod config_fetch;
pub mod dictionary;
pub mod launch;
pub mod mac_broker;
pub mod rect;
pub mod rect_collector;
pub mod rules;
pub mod service;
pub mod session;
pub mod status_icon;
pub mod text;
pub mod tray;
pub mod window_list;
pub mod windows;
pub mod worker;

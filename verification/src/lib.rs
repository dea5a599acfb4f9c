//! Rustic Vault: the verified core of a backup front end for restic-compatible
//! repositories. It holds the configuration and profile model, retention
//! policies, text handling for the editor, progress accounting, the update
//! check decision and the screen state machine of the application.

pub mod text;
pub mod paths;
pub mod config;
pub mod profile;
pub mod progress;
pub mod repo;
pub mod update;
pub mod app;
pub mod theme;
pub mod password;
pub mod laws;
pub mod display;

//! Core of a command-line client for a code-hosting service: repository
//! identities, the dashboard's status pipeline and the text that is shown.
//!
//! Everything here works on plain values. Reading the remote service, the
//! cache file and the terminal is left to the program built on top.

pub mod commands;
pub mod database;
pub mod display;
pub mod fetcher;
pub mod github;
pub mod github_client;
pub mod github_models;
pub mod kceh;
pub mod operations;
pub mod pagination;
pub mod reducer;
pub mod refresh;
pub mod repo_id;
pub mod repository_id;
pub mod text;
pub mod types;

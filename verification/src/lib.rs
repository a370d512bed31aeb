//! Dhara Repository Orchestration Tool: command catalogue, option forms, argument parsing,
//! repository configuration rules, the Dhara Storage product extension and the TUI view model.
pub mod text;
pub mod tui;
pub mod context;
pub mod command;
pub mod forms;
pub mod interactive;
pub mod args;
pub mod base_commands;
pub mod bootstrap;
pub mod msvc;
pub mod product;
pub mod repo_config;
pub mod cargo_manifest;
pub mod storage;

//! The Dhara Storage product extension: its command catalogue, option forms, presets and the
//! rules of its package and native staging workflows.
pub mod native_rids;
pub mod nuget;
pub mod strings;
pub mod ui;
pub mod presets;
pub mod build_run;
pub mod registry;
pub mod hooks;

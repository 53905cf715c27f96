//! Trackers: where issues come from and where progress is told.
pub mod asahi;
pub mod asahi_laws;
pub mod commands;
pub mod context;
pub mod context_laws;
pub mod github_item;
pub mod github_project;
pub mod item_laws;
pub mod project_laws;

//! The wiki of a project.
pub mod command;

//! Verified core of an orchestrator that lets coding agents work through the
//! items of a tracker.
pub mod agent;
pub mod api;
pub mod cli;
pub mod config;
pub mod desktop;
pub mod domain;
pub mod error;
pub mod init;
pub mod job;
pub mod job_laws;
pub mod model;
pub mod orchestrator;
pub mod path;
pub mod table;
pub mod text;
pub mod text_laws;
pub mod time;
pub mod tracker;
pub mod wiki;
pub mod workspace;

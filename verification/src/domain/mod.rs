//! Projects and wiki pages of the local tracker.
pub mod project;
pub mod wiki;

//! The interface of the local tracker.
pub mod notifications;

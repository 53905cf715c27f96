//! What is dispatched, retried, stopped and released, and when.
pub mod dispatch_laws;
pub mod embedded;
pub mod events;
pub mod laws;
pub mod order;
pub mod retry_laws;
pub mod run;
pub mod state;
pub mod watch;
pub mod watch_laws;

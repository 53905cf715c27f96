//! The window in which the local tracker is shown.
use vstd::prelude::*;

use crate::text::{cat3, decimal, texts, unsigned_text};

verus! {

/// The port at which the local tracker listens for the window.
pub const ASAHI_PORT: u16 = 49306;

/// How often the window looks whether the tracker is there.
pub const CONNECT_ATTEMPTS: u32 = 80;

/// How long it waits for an answer.
pub const CONNECT_TIMEOUT_MS: u64 = 100;

/// How long it waits before it looks again.
pub const CONNECT_PAUSE_MS: u64 = 250;

/// What the window does next.
#[derive(Debug, Clone)]
pub enum WindowStep {
    /// Runs a script in the window, and is done.
    Run(String),
    /// Waits, and looks again.
    Wait(u64),
}

/// The arguments with which the local tracker is started.
pub fn sidecar_args(db: &str) -> (r: Vec<String>)
    ensures
        texts(r@) == seq!["asahi-desktop"@, "--port"@, decimal(ASAHI_PORT as nat), "--db"@, db@],
{
    let mut out: Vec<String> = Vec::new();
    out.push("asahi-desktop".to_owned());
    out.push("--port".to_owned());
    out.push(unsigned_text(ASAHI_PORT as u64));
    out.push("--db".to_owned());
    out.push(db.to_owned());
    assert(texts(out@) =~= seq![
        "asahi-desktop"@,
        "--port"@,
        decimal(ASAHI_PORT as nat),
        "--db"@,
        db@,
    ]);
    out
}

/// What the window does after it has looked: `attempt` counts from zero, and once all
/// attempts are used up the page says that it failed.
pub fn navigate_when_ready(attempt: u32, connected: bool) -> (r: WindowStep)
    ensures
        match r {
            WindowStep::Run(script) => if attempt < CONNECT_ATTEMPTS {
                connected && script@ == "window.location.replace('http://127.0.0.1:"@ + decimal(
                    ASAHI_PORT as nat,
                ) + "/')"@
            } else {
                script@ == "document.body.dataset.status = 'failed'"@
            },
            WindowStep::Wait(pause) => attempt < CONNECT_ATTEMPTS && !connected && pause
                == CONNECT_PAUSE_MS,
        },
{
    if attempt >= CONNECT_ATTEMPTS {
        return WindowStep::Run("document.body.dataset.status = 'failed'".to_owned());
    }
    if connected {
        WindowStep::Run(
            cat3(
                "window.location.replace('http://127.0.0.1:",
                unsigned_text(ASAHI_PORT as u64).as_str(),
                "/')",
            ),
        )
    } else {
        WindowStep::Wait(CONNECT_PAUSE_MS)
    }
}

} // verus!

//! The local tracker that the orchestrator starts by itself.
use vstd::prelude::*;

use crate::config::{ServiceConfig, TrackerConfig};
use crate::error::{ErrorView, LunaError};
use crate::path::{absolute, is_absolute, join_path, joined_path};
use crate::text::{cat, decimal, unsigned_text};

verus! {

/// How often the local tracker is asked whether it is up.
pub const START_ATTEMPTS: u32 = 60;

/// The milliseconds between two such questions.
pub const START_PAUSE_MS: u64 = 100;

/// The local tracker is started where the workflow names no tracker, or names the
/// local one with a database.
pub open spec fn embeds(tracker: TrackerConfig, no_tracker_named: bool) -> bool {
    no_tracker_named || (tracker matches TrackerConfig::Asahi(c) && c.db is Some)
}

/// Whether the local tracker is to be started.
pub fn should_embed(tracker: &TrackerConfig, no_tracker_named: bool) -> (r: bool)
    ensures
        r == embeds(*tracker, no_tracker_named),
{
    if no_tracker_named {
        return true;
    }
    match tracker {
        TrackerConfig::Asahi(c) => c.db.is_some(),
        TrackerConfig::GitHubProject(_) => false,
    }
}

/// The port that the configuration asks for, if it asks for one.
pub fn configured_port(tracker: &TrackerConfig) -> (r: Option<u16>)
    ensures
        r == match *tracker {
            TrackerConfig::Asahi(c) => c.port,
            TrackerConfig::GitHubProject(_) => None,
        },
{
    match tracker {
        TrackerConfig::Asahi(c) => c.port,
        TrackerConfig::GitHubProject(_) => None,
    }
}

/// The database that the configuration names, or `asahi.db`.
pub open spec fn database_name(tracker: TrackerConfig) -> Seq<char> {
    match tracker {
        TrackerConfig::Asahi(c) => match c.db {
            Some(db) => db@,
            None => "asahi.db"@,
        },
        TrackerConfig::GitHubProject(_) => "asahi.db"@,
    }
}

/// The path of the database; a relative one is taken from the workflow's directory.
pub fn embedded_asahi_db_path(config: &ServiceConfig) -> (r: String)
    ensures
        r@ == joined_path(config.workflow_dir@, database_name(config.tracker)),
        absolute(database_name(config.tracker)) ==> r@ == database_name(config.tracker),
{
    let name = match &config.tracker {
        TrackerConfig::Asahi(c) => match &c.db {
            Some(db) => db.clone(),
            None => "asahi.db".to_owned(),
        },
        TrackerConfig::GitHubProject(_) => "asahi.db".to_owned(),
    };
    if is_absolute(name.as_str()) {
        name
    } else {
        join_path(config.workflow_dir.as_str(), name.as_str())
    }
}

/// The URL under which the database is opened.
pub fn database_url(path: &str) -> (r: String)
    ensures
        r@ == "sqlite:"@ + path@ + "?mode=rwc"@,
{
    crate::text::cat3("sqlite:", path, "?mode=rwc")
}

/// The address of the local tracker.
pub open spec fn endpoint_of(port: u16) -> Seq<char> {
    "http://127.0.0.1:"@ + decimal(port as nat)
}

/// The address of the local tracker.
pub fn embedded_endpoint(port: u16) -> (r: String)
    ensures
        r@ == endpoint_of(port),
{
    let digits = unsigned_text(port as u64);
    cat("http://127.0.0.1:", digits.as_str())
}

/// The URL that answers when the local tracker is up.
pub fn health_url(endpoint: &str) -> (r: String)
    ensures
        r@ == endpoint@ + "/api/issues"@,
{
    cat(endpoint, "/api/issues")
}

/// The configuration of the tracker once the local one is up: it is reached under
/// its address.
pub fn use_endpoint(tracker: &mut TrackerConfig, endpoint: String)
    ensures
        match *old(tracker) {
            TrackerConfig::Asahi(before) => *final(tracker) matches TrackerConfig::Asahi(after)
                && after.endpoint == endpoint && after.db == before.db && after.port == before.port,
            TrackerConfig::GitHubProject(_) => *final(tracker) == *old(tracker),
        },
{
    match tracker {
        TrackerConfig::Asahi(c) => {
            c.endpoint = endpoint;
        },
        TrackerConfig::GitHubProject(_) => {},
    }
}

/// What comes of one question whether the local tracker is up.
#[derive(Debug)]
pub enum StartStep {
    Up,
    WaitAndAskAgain,
    GiveUp(LunaError),
}

/// Goes on after question number `attempt`, counted from zero. The last one that
/// fails is the end of it.
pub fn wait_for_asahi(attempt: u32, answered: bool) -> (r: StartStep)
    ensures
        match r {
            StartStep::Up => answered,
            StartStep::WaitAndAskAgain => !answered && attempt + 1 < START_ATTEMPTS,
            StartStep::GiveUp(e) => !answered && attempt + 1 >= START_ATTEMPTS && e@
                == ErrorView::Tracker("asahi failed to start within timeout"@),
        },
{
    if answered {
        StartStep::Up
    } else if attempt >= START_ATTEMPTS - 1 {
        StartStep::GiveUp(LunaError::Tracker("asahi failed to start within timeout".to_owned()))
    } else {
        StartStep::WaitAndAskAgain
    }
}

/// The pause between two polls of the tracker; never none at all.
pub fn tick_interval_ms(configured: u64) -> (r: u64)
    ensures
        r == if configured == 0 {
            1
        } else {
            configured
        },
{
    if configured == 0 {
        1
    } else {
        configured
    }
}

/// The local tracker is started where no tracker is named, whichever is configured; where
/// one is, only for a local one with a database of its own.
pub proof fn only_local_trackers_are_started(tracker: TrackerConfig)
    ensures
        embeds(tracker, true),
        tracker is GitHubProject ==> !embeds(tracker, false),
        tracker matches TrackerConfig::Asahi(c) ==> (embeds(tracker, false) <==> c.db is Some),
{
}

/// The database is the one that is named, and `asahi.db` where none is.
pub proof fn named_database_is_used(tracker: TrackerConfig)
    ensures
        tracker matches TrackerConfig::Asahi(c) ==> {
            &&& c.db matches Some(db) ==> database_name(tracker) == db@
            &&& c.db is None ==> database_name(tracker) == "asahi.db"@
        },
        tracker is GitHubProject ==> database_name(tracker) == "asahi.db"@,
{
}

/// The local tracker is reached on this machine, at its port.
pub proof fn local_tracker_is_reached_at_its_port(port: u16)
    ensures
        endpoint_of(port) == "http://127.0.0.1:"@ + decimal(port as nat),
{
}

} // verus!

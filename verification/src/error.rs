//! The errors of the library.
use vstd::prelude::*;

use crate::text::cat;

verus! {

/// What can go wrong, each with its message.
#[derive(Clone, Debug)]
pub enum LunaError {
    InvalidConfig(String),
    Tracker(String),
    Agent(String),
    Workspace(String),
    Json(String),
    Io(String),
}

/// The model of an error.
pub enum ErrorView {
    InvalidConfig(Seq<char>),
    Tracker(Seq<char>),
    Agent(Seq<char>),
    Workspace(Seq<char>),
    Json(Seq<char>),
    Io(Seq<char>),
}

impl View for LunaError {
    type V = ErrorView;

    open spec fn view(&self) -> ErrorView {
        match self {
            LunaError::InvalidConfig(m) => ErrorView::InvalidConfig(m@),
            LunaError::Tracker(m) => ErrorView::Tracker(m@),
            LunaError::Agent(m) => ErrorView::Agent(m@),
            LunaError::Workspace(m) => ErrorView::Workspace(m@),
            LunaError::Json(m) => ErrorView::Json(m@),
            LunaError::Io(m) => ErrorView::Io(m@),
        }
    }
}

impl ErrorView {
    /// The message of an error.
    pub open spec fn message(self) -> Seq<char> {
        match self {
            ErrorView::InvalidConfig(m) => m,
            ErrorView::Tracker(m) => m,
            ErrorView::Agent(m) => m,
            ErrorView::Workspace(m) => m,
            ErrorView::Json(m) => m,
            ErrorView::Io(m) => m,
        }
    }
}

impl LunaError {
    /// The message of the error.
    pub fn message(&self) -> (r: String)
        ensures
            r@ == self@.message(),
    {
        match self {
            LunaError::InvalidConfig(m) => m.clone(),
            LunaError::Tracker(m) => m.clone(),
            LunaError::Agent(m) => m.clone(),
            LunaError::Workspace(m) => m.clone(),
            LunaError::Json(m) => m.clone(),
            LunaError::Io(m) => m.clone(),
        }
    }
}

/// A tracker error whose message is `head` followed by `tail`.
pub fn tracker_error(head: &str, tail: &str) -> (r: LunaError)
    ensures
        r@ == ErrorView::Tracker(head@ + tail@),
{
    LunaError::Tracker(cat(head, tail))
}

/// The message of an error is its own, whatever kind it is of.
pub proof fn errors_say_their_message(m: Seq<char>)
    ensures
        ErrorView::InvalidConfig(m).message() == m,
        ErrorView::Tracker(m).message() == m,
        ErrorView::Agent(m).message() == m,
        ErrorView::Workspace(m).message() == m,
        ErrorView::Json(m).message() == m,
        ErrorView::Io(m).message() == m,
{
}

} // verus!

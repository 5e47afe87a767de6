//! Values exchanged with session storages.

use crate::clock::Timestamp;
use vstd::prelude::*;

verus! {

/// Query for stored sessions.
#[derive(Debug, Clone, PartialEq, Eq)]
pub enum SessionSearchQuery {
    /// Session ids with the given prefix.
    IdPrefix(String),
    /// Titles that contain the given text.
    TitleContains(String),
}

/// Summary of a stored session.
#[derive(Debug, Clone, PartialEq, Eq)]
pub struct SessionSummary {
    /// Session id.
    pub session_id: String,
    /// Optional title.
    pub title: Option<String>,
    /// Time of the first event.
    pub created_at: Timestamp,
    /// Time of the last event.
    pub updated_at: Timestamp,
    /// Number of user and assistant messages.
    pub message_count: usize,
}

/// One page of stored sessions.
#[derive(Debug, Clone, PartialEq, Eq)]
pub struct SessionPage {
    /// The sessions of the page.
    pub sessions: Vec<SessionSummary>,
    /// Where the next page starts.
    pub next_cursor: Option<String>,
}

} // verus!

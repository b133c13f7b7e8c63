//! The commands the dispatcher hands to the worker.
//!
//! Each value describes one side-effecting request. The dispatcher produces
//! it exactly once; the worker consumes it exactly once, in arrival order.

use vstd::prelude::*;

verus! {

/// Which page of the timeline to fetch relative to its token history.
#[derive(Debug, Clone, Copy, PartialEq, Eq, Structural)]
pub enum TimelineEvent {
    Load,
    Next,
    Prev,
    Reload,
}

/// Which page of the search results to fetch; a fresh load carries the
/// query.
#[derive(Debug, Clone, PartialEq, Eq)]
pub enum SearchEvent {
    Load(String),
    Next,
    Prev,
    Reload,
}

/// The post a reply answers — its identity doubles as thread root and
/// parent — together with the reply's text, captured when the user
/// submitted.
#[derive(Debug, Clone, PartialEq, Eq)]
pub struct ReplyTarget {
    pub text: String,
    pub cid: String,
    pub uri: String,
}

/// One side-effecting request for the worker.
#[derive(Debug, Clone, PartialEq, Eq)]
pub enum IoEvent {
    Initialize,
    LoadTimeline(TimelineEvent),
    LoadNotifications,
    SendPost(String),
    Like,
    Repost,
    Reply(ReplyTarget),
    Search(SearchEvent),
    SearchLike,
    SearchRepost,
    SearchReply(ReplyTarget),
}

} // verus!

//! Data handed over by the source issue tracker: issue snapshots and
//! change-feed events, reduced to plain values.

use vstd::prelude::*;

verus! {

/// Lifecycle status of a source issue. Source systems may grow further
/// states, so anything beyond open and closed is carried as `Other`.
#[derive(Clone, Copy, PartialEq, Eq, Structural, Debug)]
pub enum IssueState {
    Open,
    Closed,
    Other,
}

/// Reason attached to a closed source issue, where the source supplies one.
/// Reasons this engine does not distinguish are carried as `Other`.
#[derive(Clone, Copy, PartialEq, Eq, Structural, Debug)]
pub enum IssueStateReason {
    NotPlanned,
    Reopened,
    Duplicate,
    Other,
}

/// Immutable snapshot of a source issue at fetch time.
pub struct SourceIssue {
    /// Identifier, unique within the source system.
    pub id: u64,
    pub title: String,
    pub body: Option<String>,
    pub state: IssueState,
    pub state_reason: Option<IssueStateReason>,
    /// True when the entry is a pull request rather than a genuine issue;
    /// such entries never receive a target counterpart.
    pub is_pull_request: bool,
}

/// One entry of the source change-event feed: an event identifier used for
/// deduplication, a free-form event kind label, and the issue snapshot as of
/// the event.
pub struct ChangeEvent {
    pub id: u64,
    pub kind: String,
    pub issue: SourceIssue,
}

} // verus!

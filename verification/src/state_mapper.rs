//! Translation of a source issue's status fields into the target system's
//! status vocabulary, and construction of the target issue payload.

use vstd::prelude::*;

use crate::source::{IssueState, IssueStateReason, SourceIssue};
use crate::target::{CustomField, CustomFieldView, IssueData, IssueDataView, StateBundleElement};

verus! {

/// The status label the target system receives for a given source lifecycle
/// state and closure reason. This is the single source of truth for the
/// cross-system status vocabulary.
pub open spec fn status_label(state: IssueState, reason: Option<IssueStateReason>) -> Seq<char> {
    match state {
        IssueState::Open => "Open"@,
        IssueState::Closed => match reason {
            Some(IssueStateReason::NotPlanned) => "Won't fix"@,
            Some(IssueStateReason::Reopened) => "Reopened"@,
            Some(IssueStateReason::Duplicate) => "Duplicate"@,
            _ => "Fixed"@,
        },
        IssueState::Other => "Submitted"@,
    }
}

/// Translates a source status into the target status label.
pub fn map_status(state: IssueState, reason: Option<IssueStateReason>) -> (label: String)
    ensures
        label@ == status_label(state, reason),
{
    let label: &str = match state {
        IssueState::Open => "Open",
        IssueState::Closed => match reason {
            Some(IssueStateReason::NotPlanned) => "Won't fix",
            Some(IssueStateReason::Reopened) => "Reopened",
            Some(IssueStateReason::Duplicate) => "Duplicate",
            _ => "Fixed",
        },
        IssueState::Other => "Submitted",
    };
    label.to_owned()
}

/// The status mapper is total: every reachable state and reason pair yields
/// one of the six labels of the target vocabulary, and, being a function,
/// always the same one.
pub proof fn lemma_status_label_total(state: IssueState, reason: Option<IssueStateReason>)
    ensures
        status_label(state, reason) == "Open"@
            || status_label(state, reason) == "Won't fix"@
            || status_label(state, reason) == "Reopened"@
            || status_label(state, reason) == "Duplicate"@
            || status_label(state, reason) == "Fixed"@
            || status_label(state, reason) == "Submitted"@,
{
}

/// The issue payload derived from a source issue snapshot: the summary is the
/// source title, the description is the source body, and the single custom
/// field carries the mapped status label.
pub open spec fn issue_data_view(issue: SourceIssue) -> IssueDataView {
    IssueDataView {
        summary: issue.title@,
        description: match issue.body {
            Some(b) => Some(b@),
            None => None,
        },
        custom_fields: seq![
            CustomFieldView {
                name: "State"@,
                type_: "StateIssueCustomField"@,
                value: status_label(issue.state, issue.state_reason),
            },
        ],
    }
}

/// Builds the target payload for a source issue snapshot.
pub fn create_issue_data(issue: &SourceIssue) -> (data: IssueData)
    ensures
        data@ == issue_data_view(*issue),
{
    let data = IssueData {
        summary: issue.title.clone(),
        description: match &issue.body {
            Some(b) => Some(b.clone()),
            None => None,
        },
        custom_fields: vec![
            CustomField {
                name: "State".to_owned(),
                type_: "StateIssueCustomField".to_owned(),
                value: StateBundleElement {
                    name: map_status(issue.state, issue.state_reason),
                },
            },
        ],
    };
    proof {
        assert(data@.custom_fields =~= issue_data_view(*issue).custom_fields);
        assert(data@ =~= issue_data_view(*issue));
    }
    data
}

} // verus!

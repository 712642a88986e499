use yousync::dedup::DEFAULT_DEDUP_CAPACITY;
use yousync::source::{ChangeEvent, IssueState, IssueStateReason, SourceIssue};
use yousync::sync::{
    events_query_path, mutation_kind, DispatchAction, PollResponse, PollResult, SyncContext,
};
use yousync::target::{IssueId, ProjectId};

fn open_issue(id: u64, title: &str) -> SourceIssue {
    SourceIssue {
        id,
        title: title.to_string(),
        body: None,
        state: IssueState::Open,
        state_reason: None,
        is_pull_request: false,
    }
}

fn closed_issue(id: u64, reason: IssueStateReason) -> SourceIssue {
    SourceIssue {
        id,
        title: "Bug".to_string(),
        body: None,
        state: IssueState::Closed,
        state_reason: Some(reason),
        is_pull_request: false,
    }
}

fn event(id: u64, kind: &str, issue: SourceIssue) -> ChangeEvent {
    ChangeEvent {
        id,
        kind: kind.to_string(),
        issue,
    }
}

#[test]
fn scenario_a_bootstrap_one_open_issue() {
    let mut ctx = SyncContext::new(DEFAULT_DEDUP_CAPACITY);
    let issue = open_issue(1, "Bug");

    let data = ctx.bootstrap_action(&issue).expect("a create is owed");
    assert_eq!(data.summary, "Bug");
    assert_eq!(data.custom_fields[0].value.name, "Open");

    ctx.record_created(1, IssueId::new("T1".to_string()));
    assert_eq!(ctx.mapping.len(), 1);
    assert_eq!(ctx.mapping.get(1).expect("mapped").as_str(), "T1");
}

#[test]
fn scenario_b_closed_duplicate_updates_then_dedups() {
    let mut ctx = SyncContext::new(DEFAULT_DEDUP_CAPACITY);
    ctx.record_created(1, IssueId::new("T1".to_string()));

    let e1 = event(101, "closed", closed_issue(1, IssueStateReason::Duplicate));
    match ctx.dispatch_decide(&e1) {
        DispatchAction::Update { target, data } => {
            assert_eq!(target.as_str(), "T1");
            assert_eq!(data.custom_fields[0].value.name, "Duplicate");
        }
        _ => panic!("expected an update"),
    }

    // The same event arriving in a later overlapping page is a no-op.
    let e1_again = event(101, "closed", closed_issue(1, IssueStateReason::Duplicate));
    match ctx.dispatch_decide(&e1_again) {
        DispatchAction::AlreadySeen => {}
        _ => panic!("expected a dedup hit"),
    }
}

#[test]
fn scenario_c_commented_event_for_mapped_issue_is_ignored() {
    let mut ctx = SyncContext::new(DEFAULT_DEDUP_CAPACITY);
    ctx.record_created(1, IssueId::new("T1".to_string()));

    let e2 = event(102, "commented", open_issue(1, "Bug"));
    match ctx.dispatch_decide(&e2) {
        DispatchAction::Ignored => {}
        _ => panic!("expected the event to be ignored"),
    }
    // The event still counts as seen.
    match ctx.dispatch_decide(&event(102, "commented", open_issue(1, "Bug"))) {
        DispatchAction::AlreadySeen => {}
        _ => panic!("expected a dedup hit"),
    }
}

#[test]
fn scenario_d_unmapped_issue_gets_created() {
    let mut ctx = SyncContext::new(DEFAULT_DEDUP_CAPACITY);
    ctx.record_created(1, IssueId::new("T1".to_string()));

    let e3 = event(103, "closed", closed_issue(99, IssueStateReason::NotPlanned));
    match ctx.dispatch_decide(&e3) {
        DispatchAction::Create { data } => {
            assert_eq!(data.custom_fields[0].value.name, "Won't fix");
        }
        _ => panic!("expected a create"),
    }
    ctx.record_created(99, IssueId::new("T2".to_string()));
    assert_eq!(ctx.mapping.get(99).expect("newly mapped").as_str(), "T2");
    assert_eq!(ctx.mapping.len(), 2);
}

#[test]
fn dispatch_of_same_event_is_idempotent_for_mapped_issue() {
    // Two contexts with the same mapping stand in for dispatching twice with
    // deduplication set aside.
    let mut first = SyncContext::new(DEFAULT_DEDUP_CAPACITY);
    first.record_created(1, IssueId::new("T1".to_string()));
    let mut second = SyncContext::new(DEFAULT_DEDUP_CAPACITY);
    second.record_created(1, IssueId::new("T1".to_string()));

    let make_event = || event(104, "reopened", open_issue(1, "Bug"));
    let a1 = first.dispatch_decide(&make_event());
    let a2 = second.dispatch_decide(&make_event());
    match (a1, a2) {
        (
            DispatchAction::Update {
                target: t1,
                data: d1,
            },
            DispatchAction::Update {
                target: t2,
                data: d2,
            },
        ) => {
            assert_eq!(t1.as_str(), t2.as_str());
            assert_eq!(d1.summary, d2.summary);
            assert_eq!(
                d1.custom_fields[0].value.name,
                d2.custom_fields[0].value.name
            );
        }
        _ => panic!("expected two equal updates"),
    }
    // Neither dispatch touched the mapping.
    assert_eq!(first.mapping.len(), 1);
    assert_eq!(second.mapping.len(), 1);
}

#[test]
fn bootstrap_skips_duplicates_and_pull_requests() {
    let mut ctx = SyncContext::new(DEFAULT_DEDUP_CAPACITY);

    let first = open_issue(1, "Bug");
    assert!(ctx.bootstrap_action(&first).is_some());
    ctx.record_created(1, IssueId::new("T1".to_string()));

    // A duplicate entry for the same source id yields no second create.
    let duplicate = open_issue(1, "Bug");
    assert!(ctx.bootstrap_action(&duplicate).is_none());

    // A pull request never gets a target counterpart.
    let mut pr = open_issue(2, "A pull request");
    pr.is_pull_request = true;
    assert!(ctx.bootstrap_action(&pr).is_none());

    assert_eq!(ctx.mapping.len(), 1);
}

#[test]
fn unchanged_poll_keeps_the_stored_token() {
    let mut ctx = SyncContext::new(DEFAULT_DEDUP_CAPACITY);
    ctx.token = Some("T0".to_string());

    match ctx.apply_poll(PollResponse::NotModified) {
        PollResult::Unchanged => {}
        _ => panic!("expected no change"),
    }
    assert_eq!(ctx.token.as_deref(), Some("T0"));
}

#[test]
fn modified_poll_replaces_the_token_and_returns_the_events() {
    let mut ctx = SyncContext::new(DEFAULT_DEDUP_CAPACITY);
    ctx.token = Some("T0".to_string());

    let events = vec![event(105, "closed", closed_issue(1, IssueStateReason::Other))];
    match ctx.apply_poll(PollResponse::Modified {
        token: Some("T1".to_string()),
        events,
    }) {
        PollResult::Events(es) => {
            assert_eq!(es.len(), 1);
            assert_eq!(es[0].id, 105);
        }
        _ => panic!("expected events"),
    }
    assert_eq!(ctx.token.as_deref(), Some("T1"));
}

#[test]
fn modified_poll_without_token_drops_the_previous_one() {
    let mut ctx = SyncContext::new(DEFAULT_DEDUP_CAPACITY);
    ctx.token = Some("T0".to_string());

    match ctx.apply_poll(PollResponse::Modified {
        token: None,
        events: Vec::new(),
    }) {
        PollResult::Events(es) => assert!(es.is_empty()),
        _ => panic!("expected events"),
    }
    assert!(ctx.token.is_none());
}

#[test]
fn mutation_kinds_are_exactly_closed_reopened_renamed() {
    assert!(mutation_kind(&"closed".to_string()));
    assert!(mutation_kind(&"reopened".to_string()));
    assert!(mutation_kind(&"renamed".to_string()));
    assert!(!mutation_kind(&"commented".to_string()));
    assert!(!mutation_kind(&"labeled".to_string()));
    assert!(!mutation_kind(&"".to_string()));
}

#[test]
fn identifiers_keep_their_text() {
    let project = ProjectId::new("0-1".to_string());
    assert_eq!(project.as_str(), "0-1");
    assert_eq!(project.clone().as_str(), "0-1");
    let issue = IssueId::new("PR-7".to_string());
    assert_eq!(issue.as_str(), "PR-7");
    assert_eq!(issue.clone().as_str(), "PR-7");
}

#[test]
fn feed_path_uses_page_size_ten() {
    assert_eq!(
        events_query_path("octo", "repo"),
        "/repos/octo/repo/issues/events?per_page=10"
    );
}

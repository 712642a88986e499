//! The synchronization loop's state and decisions: conditional-poll outcome
//! handling, bootstrap create decisions, and per-event dispatch. The
//! surrounding program performs the network calls; every decision about what
//! to send, and every change to the engine's state, is made here.

use vstd::prelude::*;
use vstd::string::StringExecFns;

use crate::dedup::{window_insert, DedupWindow};
use crate::mapping::IssueMapping;
use crate::source::{ChangeEvent, SourceIssue};
use crate::state_mapper::{create_issue_data, issue_data_view};
use crate::target::{IssueData, IssueDataView, IssueId};

verus! {

/// Event kinds that mutate sync-relevant fields of an already-mapped issue;
/// events of any other kind are intentionally ignored for mapped issues.
pub open spec fn is_mutation_kind(kind: Seq<char>) -> bool {
    kind == "closed"@ || kind == "reopened"@ || kind == "renamed"@
}

/// True iff the event kind is in the recognized mutation set.
pub fn mutation_kind(kind: &String) -> (r: bool)
    ensures
        r == is_mutation_kind(kind@),
{
    let closed: String = "closed".to_owned();
    let reopened: String = "reopened".to_owned();
    let renamed: String = "renamed".to_owned();
    *kind == closed || *kind == reopened || *kind == renamed
}

/// Path and query under which one repository's change-event feed is read;
/// the feed query always uses a fixed page size of ten.
pub fn events_query_path(owner: &str, repo: &str) -> (r: String)
    ensures
        r@ == "/repos/"@ + owner@ + "/"@ + repo@ + "/issues/events?per_page=10"@,
{
    let s = "/repos/".to_owned();
    let s = s.concat(owner);
    let s = s.concat("/");
    let s = s.concat(repo);
    let s = s.concat("/issues/events?per_page=10");
    proof {
        assert(s@ =~= "/repos/"@ + owner@ + "/"@ + repo@ + "/issues/events?per_page=10"@);
    }
    s
}

/// A source feed response, after the transport layer has reduced it to plain
/// values: either the server reported no change, or a fresh batch of events
/// together with whatever validator token the response carried.
pub enum PollResponse {
    NotModified,
    Modified { token: Option<String>, events: Vec<ChangeEvent> },
}

/// Outcome of one poll as seen by the caller.
pub enum PollResult {
    Unchanged,
    Events(Vec<ChangeEvent>),
}

/// The action the dispatcher asks the caller to perform for one event.
pub enum DispatchAction {
    /// The event identifier was already in the deduplication window.
    AlreadySeen,
    /// The issue is mapped but the event kind is not in the mutation set.
    Ignored,
    /// Update the given target issue with the given payload.
    Update { target: IssueId, data: IssueData },
    /// Create a target issue with the given payload; the caller must record
    /// the resulting identifier with `record_created`.
    Create { data: IssueData },
}

/// View of a dispatch action, with payloads reduced to their views.
pub enum DispatchActionView {
    AlreadySeen,
    Ignored,
    Update { target: Seq<char>, data: IssueDataView },
    Create { data: IssueDataView },
}

impl View for DispatchAction {
    type V = DispatchActionView;

    open spec fn view(&self) -> DispatchActionView {
        match self {
            DispatchAction::AlreadySeen => DispatchActionView::AlreadySeen,
            DispatchAction::Ignored => DispatchActionView::Ignored,
            DispatchAction::Update { target, data } => DispatchActionView::Update {
                target: target@,
                data: data@,
            },
            DispatchAction::Create { data } => DispatchActionView::Create { data: data@ },
        }
    }
}

/// What the dispatcher decides for an unseen event, given the current
/// mapping: an update for a mapped issue under a mutation kind, nothing for
/// a mapped issue under any other kind, and a create for an unmapped issue.
pub open spec fn dispatch_action_spec(m: Map<u64, IssueId>, event: ChangeEvent)
    -> DispatchActionView {
    if m.contains_key(event.issue.id) {
        if is_mutation_kind(event.kind@) {
            DispatchActionView::Update {
                target: m[event.issue.id]@,
                data: issue_data_view(event.issue),
            }
        } else {
            DispatchActionView::Ignored
        }
    } else {
        DispatchActionView::Create { data: issue_data_view(event.issue) }
    }
}

/// The mapping after one full dispatch cycle for an unseen event, where
/// `tid` is the target identifier the caller recorded if the decision was a
/// create: only an unmapped issue gains an entry.
pub open spec fn dispatch_map_after(m: Map<u64, IssueId>, event: ChangeEvent, tid: IssueId)
    -> Map<u64, IssueId> {
    if m.contains_key(event.issue.id) {
        m
    } else {
        m.insert(event.issue.id, tid)
    }
}

/// True iff the bootstrap step emits a create for this issue: only genuine
/// issues, and only those not yet mapped, receive a target counterpart.
pub open spec fn bootstrap_creates(m: Map<u64, IssueId>, issue: SourceIssue) -> bool {
    !issue.is_pull_request && !m.contains_key(issue.id)
}

/// Long-lived state of one synchronization run: the identity mapping, the
/// deduplication window, and the conditional-fetch validator token. Owned by
/// the single control loop; constructed once at startup.
pub struct SyncContext {
    pub mapping: IssueMapping,
    pub window: DedupWindow,
    pub token: Option<String>,
}

impl SyncContext {
    pub open spec fn wf(&self) -> bool {
        self.window.wf()
    }

    pub fn new(capacity: usize) -> (ctx: Self)
        requires
            1 <= capacity,
        ensures
            ctx.wf(),
            ctx.mapping@ == Map::<u64, IssueId>::empty(),
            ctx.window@ == Seq::<u64>::empty(),
            ctx.window.capacity_spec() == capacity,
            ctx.token is None,
    {
        SyncContext {
            mapping: IssueMapping::new(),
            window: DedupWindow::new(capacity),
            token: None,
        }
    }

    /// Digests one feed response. On "not modified" the stored token is kept
    /// for the next poll; otherwise the response's token replaces it — even
    /// an absent one, the previous token is never merged in — and the parsed
    /// events are handed back in feed order.
    pub fn apply_poll(&mut self, response: PollResponse) -> (r: PollResult)
        requires
            old(self).wf(),
        ensures
            final(self).wf(),
            final(self).mapping@ == old(self).mapping@,
            final(self).window == old(self).window,
            response matches PollResponse::NotModified ==> final(self).token == old(self).token
                && r matches PollResult::Unchanged,
            response matches PollResponse::Modified { token, events } ==> final(self).token
                == token && (r matches PollResult::Events(es) && es == events),
    {
        match response {
            PollResponse::NotModified => PollResult::Unchanged,
            PollResponse::Modified { token, events } => {
                self.token = token;
                PollResult::Events(events)
            },
        }
    }

    /// The bootstrap decision for one fetched source entry: a create payload
    /// for a genuine, not-yet-mapped issue, and nothing otherwise. The
    /// caller performs the create and records the resulting identifier with
    /// `record_created`.
    pub fn bootstrap_action(&self, issue: &SourceIssue) -> (r: Option<IssueData>)
        ensures
            (r is Some) == bootstrap_creates(self.mapping@, *issue),
            r matches Some(data) ==> data@ == issue_data_view(*issue),
    {
        if !issue.is_pull_request && !self.mapping.contains(issue.id) {
            Some(create_issue_data(issue))
        } else {
            None
        }
    }

    /// Records the target issue created for a source issue.
    pub fn record_created(&mut self, source_id: u64, target_id: IssueId)
        requires
            old(self).wf(),
        ensures
            final(self).wf(),
            final(self).mapping@ == old(self).mapping@.insert(source_id, target_id),
            final(self).window == old(self).window,
            final(self).token == old(self).token,
    {
        self.mapping.insert(source_id, target_id);
    }

    /// Decides what to do for one change event. An event already in the
    /// deduplication window is discarded. Otherwise the event is marked seen
    /// first — even if the action the caller then performs fails, the event
    /// is not re-attempted: at-most-once attempt, not at-most-once guarantee
    /// — and the decision follows `dispatch_action_spec`: the update payload
    /// is always recomputed fresh from the event's embedded issue snapshot.
    pub fn dispatch_decide(&mut self, event: &ChangeEvent) -> (action: DispatchAction)
        requires
            old(self).wf(),
        ensures
            final(self).wf(),
            final(self).mapping@ == old(self).mapping@,
            final(self).token == old(self).token,
            final(self).window.capacity_spec() == old(self).window.capacity_spec(),
            old(self).window@.contains(event.id) ==> final(self).window@ == old(self).window@
                && action matches DispatchAction::AlreadySeen,
            !old(self).window@.contains(event.id) ==> final(self).window@ == window_insert(
                old(self).window@,
                old(self).window.capacity_spec(),
                event.id,
            ) && action@ == dispatch_action_spec(old(self).mapping@, *event),
    {
        if self.window.contains(event.id) {
            return DispatchAction::AlreadySeen;
        }
        self.window.insert(event.id);
        match self.mapping.get(event.issue.id) {
            Some(target) => {
                if mutation_kind(&event.kind) {
                    DispatchAction::Update {
                        target: target.clone(),
                        data: create_issue_data(&event.issue),
                    }
                } else {
                    DispatchAction::Ignored
                }
            },
            None => DispatchAction::Create { data: create_issue_data(&event.issue) },
        }
    }
}

/// Dispatch is idempotent for already-mapped issues: with deduplication set
/// aside, dispatching the same change event twice decides the same action
/// both times — the update payload is a pure function of the event's issue
/// snapshot — and leaves the mapping exactly as one dispatch leaves it.
pub proof fn lemma_dispatch_idempotent_for_mapped(
    m: Map<u64, IssueId>,
    event: ChangeEvent,
    tid: IssueId,
)
    requires
        m.contains_key(event.issue.id),
    ensures
        dispatch_map_after(m, event, tid) == m,
        dispatch_action_spec(dispatch_map_after(m, event, tid), event)
            == dispatch_action_spec(m, event),
{
}

/// The mapping after running the bootstrap decision over a whole fetched
/// issue list, where `tids[i]` is the target identifier the create for
/// `issues[i]` returned (unused at positions where nothing is created).
pub open spec fn bootstrap_run(
    m: Map<u64, IssueId>,
    issues: Seq<SourceIssue>,
    tids: Seq<IssueId>,
) -> Map<u64, IssueId>
    decreases issues.len(),
{
    if issues.len() == 0 {
        m
    } else {
        let m1 = if bootstrap_creates(m, issues[0]) {
            m.insert(issues[0].id, tids[0])
        } else {
            m
        };
        bootstrap_run(m1, issues.skip(1), tids.skip(1))
    }
}

/// How many creates a bootstrap run emits for one particular source id.
pub open spec fn bootstrap_create_count(
    m: Map<u64, IssueId>,
    issues: Seq<SourceIssue>,
    tids: Seq<IssueId>,
    id: u64,
) -> nat
    decreases issues.len(),
{
    if issues.len() == 0 {
        0
    } else {
        let here: nat = if bootstrap_creates(m, issues[0]) && issues[0].id == id {
            1
        } else {
            0
        };
        let m1 = if bootstrap_creates(m, issues[0]) {
            m.insert(issues[0].id, tids[0])
        } else {
            m
        };
        here + bootstrap_create_count(m1, issues.skip(1), tids.skip(1), id)
    }
}

/// A mapping entry, once present, survives the rest of the bootstrap run:
/// entries are only ever added, never removed or overwritten with a create.
pub proof fn lemma_bootstrap_keeps_mapped(
    m: Map<u64, IssueId>,
    issues: Seq<SourceIssue>,
    tids: Seq<IssueId>,
    id: u64,
)
    requires
        m.contains_key(id),
    ensures
        bootstrap_run(m, issues, tids).contains_key(id),
    decreases issues.len(),
{
    if issues.len() > 0 {
        let m1 = if bootstrap_creates(m, issues[0]) {
            m.insert(issues[0].id, tids[0])
        } else {
            m
        };
        lemma_bootstrap_keeps_mapped(m1, issues.skip(1), tids.skip(1), id);
    }
}

/// Bootstrap leaves no genuine issue behind: after the run, every fetched
/// entry that is not a pull request has a mapping entry under its source id.
pub proof fn lemma_bootstrap_maps_every_genuine_issue(
    m: Map<u64, IssueId>,
    issues: Seq<SourceIssue>,
    tids: Seq<IssueId>,
    i: int,
)
    requires
        0 <= i < issues.len(),
        !issues[i].is_pull_request,
    ensures
        bootstrap_run(m, issues, tids).contains_key(issues[i].id),
    decreases issues.len(),
{
    let m1 = if bootstrap_creates(m, issues[0]) {
        m.insert(issues[0].id, tids[0])
    } else {
        m
    };
    if i == 0 {
        lemma_bootstrap_keeps_mapped(m1, issues.skip(1), tids.skip(1), issues[0].id);
    } else {
        lemma_bootstrap_maps_every_genuine_issue(m1, issues.skip(1), tids.skip(1), i - 1);
        assert(issues.skip(1)[i - 1] == issues[i]);
    }
}

/// A source id that is already mapped is never created again during
/// bootstrap.
pub proof fn lemma_bootstrap_mapped_never_created(
    m: Map<u64, IssueId>,
    issues: Seq<SourceIssue>,
    tids: Seq<IssueId>,
    id: u64,
)
    requires
        m.contains_key(id),
    ensures
        bootstrap_create_count(m, issues, tids, id) == 0,
    decreases issues.len(),
{
    if issues.len() > 0 {
        let m1 = if bootstrap_creates(m, issues[0]) {
            m.insert(issues[0].id, tids[0])
        } else {
            m
        };
        lemma_bootstrap_mapped_never_created(m1, issues.skip(1), tids.skip(1), id);
    }
}

/// Bootstrap never creates two target issues for the same source issue
/// identifier, even when the fetched issue list holds duplicate entries: at
/// most one create is emitted per distinct source id, and since the mapping
/// keys are unique, the final mapping holds exactly one entry per distinct
/// source id that was created.
pub proof fn lemma_bootstrap_creates_at_most_once(
    m: Map<u64, IssueId>,
    issues: Seq<SourceIssue>,
    tids: Seq<IssueId>,
    id: u64,
)
    ensures
        bootstrap_create_count(m, issues, tids, id) <= 1,
    decreases issues.len(),
{
    if issues.len() > 0 {
        let m1 = if bootstrap_creates(m, issues[0]) {
            m.insert(issues[0].id, tids[0])
        } else {
            m
        };
        if bootstrap_creates(m, issues[0]) && issues[0].id == id {
            lemma_bootstrap_mapped_never_created(m1, issues.skip(1), tids.skip(1), id);
        } else {
            lemma_bootstrap_creates_at_most_once(m1, issues.skip(1), tids.skip(1), id);
        }
    }
}

} // verus!

//! The authoritative source-to-target issue identity mapping: keys are
//! source issue identifiers, values the target issue identifiers created for
//! them. Seeded at bootstrap, extended by the dispatcher.

use std::collections::HashMap;

use vstd::prelude::*;

use crate::target::IssueId;

verus! {

broadcast use vstd::std_specs::hash::group_hash_axioms;

/// One-directional mapping from source issue identifier to target issue
/// identifier, keys unique. Viewed as a map.
pub struct IssueMapping {
    map: HashMap<u64, IssueId>,
}

impl View for IssueMapping {
    type V = Map<u64, IssueId>;

    closed spec fn view(&self) -> Map<u64, IssueId> {
        self.map@
    }
}

impl IssueMapping {
    pub fn new() -> (r: Self)
        ensures
            r@ == Map::<u64, IssueId>::empty(),
    {
        IssueMapping { map: HashMap::new() }
    }

    /// True iff a target issue has already been recorded for this source id.
    pub fn contains(&self, source_id: u64) -> (r: bool)
        ensures
            r == self@.contains_key(source_id),
    {
        self.map.contains_key(&source_id)
    }

    /// The target issue recorded for this source id, if any.
    pub fn get(&self, source_id: u64) -> (r: Option<&IssueId>)
        ensures
            match r {
                Some(t) => self@.contains_key(source_id) && *t == self@[source_id],
                None => !self@.contains_key(source_id),
            },
    {
        self.map.get(&source_id)
    }

    /// Records the target issue for a source id; an existing entry for the
    /// same source id is replaced.
    pub fn insert(&mut self, source_id: u64, target_id: IssueId)
        ensures
            final(self)@ == old(self)@.insert(source_id, target_id),
    {
        self.map.insert(source_id, target_id);
    }

    pub fn len(&self) -> (n: usize)
        ensures
            n == self@.dom().len(),
    {
        self.map.len()
    }
}

} // verus!

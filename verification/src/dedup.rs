//! Bounded FIFO window of recently seen event identifiers. The source feed
//! may return overlapping pages of recent events across successive polls;
//! this window bounds memory and suppresses re-dispatch.

use vstd::prelude::*;

verus! {

/// Default number of event identifiers the window retains.
pub const DEFAULT_DEDUP_CAPACITY: usize = 20;

/// What one insertion does to the window's contents: the identifier is
/// appended as newest, after the oldest entry is evicted if the window is
/// already at capacity.
pub open spec fn window_insert(w: Seq<u64>, cap: int, id: u64) -> Seq<u64> {
    if w.len() < cap {
        w.push(id)
    } else {
        w.skip(1).push(id)
    }
}

/// The contents after a whole sequence of insertions, oldest first.
pub open spec fn window_insert_all(w: Seq<u64>, cap: int, ids: Seq<u64>) -> Seq<u64>
    decreases ids.len(),
{
    if ids.len() == 0 {
        w
    } else {
        window_insert(window_insert_all(w, cap, ids.drop_last()), cap, ids.last())
    }
}

/// Bounded FIFO set of recently seen event identifiers. Viewed as the
/// sequence of held identifiers, oldest first.
pub struct DedupWindow {
    entries: Vec<u64>,
    capacity: usize,
}

impl View for DedupWindow {
    type V = Seq<u64>;

    closed spec fn view(&self) -> Seq<u64> {
        self.entries@
    }
}

impl DedupWindow {
    /// The fixed capacity the window was created with.
    pub closed spec fn capacity_spec(&self) -> int {
        self.capacity as int
    }

    /// The window never holds more identifiers than its capacity.
    pub open spec fn wf(&self) -> bool {
        1 <= self.capacity_spec() && self@.len() <= self.capacity_spec()
    }

    pub fn new(capacity: usize) -> (w: Self)
        requires
            1 <= capacity,
        ensures
            w.wf(),
            w@ == Seq::<u64>::empty(),
            w.capacity_spec() == capacity,
    {
        DedupWindow { entries: Vec::new(), capacity }
    }

    pub fn capacity(&self) -> (c: usize)
        ensures
            c == self.capacity_spec(),
    {
        self.capacity
    }

    pub fn len(&self) -> (n: usize)
        ensures
            n == self@.len(),
    {
        self.entries.len()
    }

    /// True iff the identifier is currently held.
    pub fn contains(&self, id: u64) -> (r: bool)
        ensures
            r == self@.contains(id),
    {
        let mut i: usize = 0;
        while i < self.entries.len()
            invariant
                i <= self.entries.len(),
                forall|j: int| 0 <= j < i ==> self.entries@[j] != id,
            decreases self.entries.len() - i,
        {
            if self.entries[i] == id {
                return true;
            }
            i += 1;
        }
        false
    }

    /// Pushes the identifier as newest, evicting the oldest entry first when
    /// the window is at capacity.
    pub fn insert(&mut self, id: u64)
        requires
            old(self).wf(),
        ensures
            final(self).wf(),
            final(self).capacity_spec() == old(self).capacity_spec(),
            final(self)@ == window_insert(old(self)@, old(self).capacity_spec(), id),
    {
        if self.entries.len() == self.capacity {
            self.entries.remove(0);
            proof {
                assert(self.entries@ =~= old(self)@.skip(1));
            }
        }
        self.entries.push(id);
    }
}

/// Inserting a run of identifiers slides the window: afterwards it holds
/// exactly the newest entries, in order, of everything ever held, cut to
/// capacity.
pub proof fn lemma_window_slides(w: Seq<u64>, cap: int, ids: Seq<u64>)
    requires
        1 <= cap,
        w.len() <= cap,
    ensures
        window_insert_all(w, cap, ids) == (w + ids).skip(
            if w.len() + ids.len() > cap { w.len() + ids.len() - cap } else { 0 },
        ),
        window_insert_all(w, cap, ids).len() <= cap,
    decreases ids.len(),
{
    if ids.len() == 0 {
        assert(window_insert_all(w, cap, ids) =~= (w + ids).skip(0));
    } else {
        let rest = ids.drop_last();
        lemma_window_slides(w, cap, rest);
        let s: int = if w.len() + ids.len() > cap { w.len() + ids.len() - cap } else { 0 };
        assert(window_insert_all(w, cap, ids) =~= (w + ids).skip(s));
    }
}

/// The eviction order is oldest first: after inserting capacity-plus-one
/// distinct identifiers into an empty window, the first inserted identifier
/// is absent and the newest capacity-many are present, in insertion order.
pub proof fn lemma_window_evicts_oldest_first(cap: int, ids: Seq<u64>)
    requires
        1 <= cap,
        ids.len() == cap + 1,
        forall|i: int, j: int| 0 <= i < j < ids.len() ==> ids[i] != ids[j],
    ensures
        window_insert_all(Seq::<u64>::empty(), cap, ids) == ids.skip(1),
        !window_insert_all(Seq::<u64>::empty(), cap, ids).contains(ids[0]),
        forall|i: int|
            1 <= i < ids.len() ==> window_insert_all(Seq::<u64>::empty(), cap, ids).contains(
                ids[i],
            ),
{
    let w = Seq::<u64>::empty();
    lemma_window_slides(w, cap, ids);
    assert(window_insert_all(w, cap, ids) =~= ids.skip(1));
    let out = window_insert_all(w, cap, ids);
    assert forall|i: int| 1 <= i < ids.len() implies out.contains(ids[i]) by {
        assert(out[i - 1] == ids[i]);
    }
    if out.contains(ids[0]) {
        let k = choose|k: int| 0 <= k < out.len() && out[k] == ids[0];
        assert(ids[k + 1] == ids[0]);
    }
}

} // verus!

//! The deduplicating collector: every identifier once, in the order first seen.

use crate::item_id::ItemId;
use vstd::prelude::*;

verus! {

/// The identifiers of `ids` that are new with respect to `seen`, each once,
/// in the order of their first occurrence.
pub open spec fn fresh(seen: Seq<Seq<char>>, ids: Seq<Seq<char>>) -> Seq<Seq<char>>
    decreases ids.len(),
{
    if ids.len() == 0 {
        Seq::<Seq<char>>::empty()
    } else {
        let earlier = fresh(seen, ids.drop_last());
        if seen.contains(ids.last()) || earlier.contains(ids.last()) {
            earlier
        } else {
            earlier.push(ids.last())
        }
    }
}

/// What `fresh` keeps: exactly the identifiers of `ids` that `seen` lacks,
/// none of them twice, so that a duplicate-free `seen` stays duplicate-free
/// when they are appended.
pub proof fn lemma_fresh(seen: Seq<Seq<char>>, ids: Seq<Seq<char>>)
    ensures
        fresh(seen, ids).no_duplicates(),
        fresh(seen, ids).len() <= ids.len(),
        forall|x: Seq<char>| #[trigger]
            fresh(seen, ids).contains(x) <==> ids.contains(x) && !seen.contains(x),
        seen.no_duplicates() ==> (seen + fresh(seen, ids)).no_duplicates(),
    decreases ids.len(),
{
    let out = fresh(seen, ids);
    if ids.len() > 0 {
        let front = ids.drop_last();
        let last = ids.last();
        let earlier = fresh(seen, front);
        lemma_fresh(seen, front);
        assert forall|x: Seq<char>| #[trigger] out.contains(x) <==> ids.contains(x) && !seen.contains(
            x,
        ) by {
            if ids.contains(x) {
                let j = choose|j: int| 0 <= j < ids.len() && ids[j] == x;
                if j < front.len() {
                    assert(front[j] == x);
                }
            }
            if earlier.contains(x) {
                let j = choose|j: int| 0 <= j < earlier.len() && earlier[j] == x;
                assert(out[j] == x);
            }
            if x == last && !seen.contains(x) && !earlier.contains(x) {
                assert(out[earlier.len() as int] == x);
            }
        }
    }
    if seen.no_duplicates() {
        let all = seen + out;
        assert forall|i: int, j: int| 0 <= i < all.len() && 0 <= j < all.len() && i != j implies all[i]
            != all[j] by {
            if i < seen.len() && j >= seen.len() {
                assert(out.contains(out[j - seen.len()]));
            }
            if j < seen.len() && i >= seen.len() {
                assert(out.contains(out[i - seen.len()]));
            }
        }
    }
}

/// An ordered set of identifiers.
pub struct Collector {
    ids: Vec<ItemId>,
}

impl View for Collector {
    type V = Seq<Seq<char>>;

    closed spec fn view(&self) -> Seq<Seq<char>> {
        self.ids.deep_view()
    }
}

impl Collector {
    /// No identifier is held twice.
    pub open spec fn wf(&self) -> bool {
        self@.no_duplicates()
    }

    /// The empty collector.
    pub fn new() -> (c: Collector)
        ensures
            c@ == Seq::<Seq<char>>::empty(),
            c.wf(),
    {
        let c = Collector { ids: Vec::new() };
        c
    }

    /// The number of identifiers held.
    pub fn len(&self) -> (n: usize)
        ensures
            n == self@.len(),
    {
        self.ids.len()
    }

    /// Whether `id` is held.
    pub fn contains(&self, id: &ItemId) -> (b: bool)
        ensures
            b == self@.contains(id@),
    {
        let mut i: usize = 0;
        while i < self.ids.len()
            invariant
                i <= self.ids.len(),
                forall|k: int| 0 <= k < i ==> self@[k] != id@,
            decreases self.ids.len() - i,
        {
            if self.ids[i].same_as(id) {
                assert(self@[i as int] == id@);
                return true;
            }
            i += 1;
        }
        false
    }

    /// Takes `id` in unless it is held already, and says whether it was new.
    pub fn insert(&mut self, id: ItemId) -> (added: bool)
        requires
            old(self).wf(),
        ensures
            final(self).wf(),
            added == !old(self)@.contains(id@),
            final(self)@ == if added {
                old(self)@.push(id@)
            } else {
                old(self)@
            },
    {
        if self.contains(&id) {
            false
        } else {
            let ghost before = self@;
            self.ids.push(id);
            assert(self@ =~= before.push(id@));
            true
        }
    }

    /// Takes in every identifier of `ids` that is not held yet and hands the
    /// new ones back, each once, in the order in which they came.
    pub fn extend(&mut self, ids: &Vec<ItemId>) -> (added: Vec<ItemId>)
        requires
            old(self).wf(),
        ensures
            final(self).wf(),
            added.deep_view() == fresh(old(self)@, ids.deep_view()),
            final(self)@ == old(self)@ + added.deep_view(),
    {
        let mut added: Vec<ItemId> = Vec::new();
        let mut i: usize = 0;
        let ghost seen = self@;
        let ghost all = ids.deep_view();
        while i < ids.len()
            invariant
                i <= ids.len(),
                all == ids.deep_view(),
                seen.no_duplicates(),
                self.wf(),
                added.deep_view() == fresh(seen, all.take(i as int)),
                self@ == seen + added.deep_view(),
            decreases ids.len() - i,
        {
            let ghost earlier = added.deep_view();
            let ghost held = self@;
            assert(all.take(i + 1).drop_last() =~= all.take(i as int));
            let id: ItemId = ids[i].clone();
            proof {
                if seen.contains(id@) {
                    let j = choose|j: int| 0 <= j < seen.len() && seen[j] == id@;
                    assert(held[j] == id@);
                }
                if earlier.contains(id@) {
                    let j = choose|j: int| 0 <= j < earlier.len() && earlier[j] == id@;
                    assert(held[seen.len() + j] == id@);
                }
            }
            if self.insert(id.clone()) {
                added.push(id);
            }
            i += 1;
        }
        assert(all.take(ids.len() as int) =~= all);
        added
    }

    /// The identifiers held, in the order first seen.
    pub fn items(&self) -> (out: Vec<ItemId>)
        ensures
            out.deep_view() == self@,
    {
        let mut out: Vec<ItemId> = Vec::new();
        let mut i: usize = 0;
        while i < self.ids.len()
            invariant
                i <= self.ids.len(),
                out.len() == i,
                forall|k: int| 0 <= k < i ==> (#[trigger] out[k])@ == self.ids[k]@,
            decreases self.ids.len() - i,
        {
            out.push(self.ids[i].clone());
            i += 1;
        }
        out
    }
}

} // verus!

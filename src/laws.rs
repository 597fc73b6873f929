use crate::bump::ArenaView;
use crate::layout::{lemma_pow2_positive, lemma_round_down, Layout};
use vstd::prelude::*;

verus! {

/// Every request in `ls` is well formed.
pub open spec fn all_wf(ls: Seq<Layout>) -> bool {
    forall|k: int| 0 <= k < ls.len() ==> #[trigger] ls[k].wf()
}

/// The address that the `i`-th request of `ls` gets, starting from `s`.
pub open spec fn nth_result(s: ArenaView, ls: Seq<Layout>, i: int) -> Option<nat> {
    s.after_all(ls.take(i)).alloc_result(ls[i])
}

/// One request keeps the arena well formed and the cursor never rises; a
/// granted block lies between the start of the arena and the old cursor.
proof fn lemma_step(s: ArenaView, l: Layout)
    requires
        s.wf(),
        l.wf(),
    ensures
        s.after_alloc(l).wf(),
        s.after_alloc(l).base == s.base,
        s.after_alloc(l).capacity == s.capacity,
        s.after_alloc(l).cursor <= s.cursor,
        s.alloc_result(l) matches Some(a) ==> {
            &&& s.base <= a
            &&& a + l.size <= s.cursor
            &&& a as int % (l.align as int) == 0
            &&& s.after_alloc(l).cursor == a
        },
{
    lemma_pow2_positive(l.align as int);
    if s.cursor >= l.size {
        lemma_round_down(s.cursor - l.size, l.align as int);
    }
}

/// Any run of requests keeps the arena well formed, over the same block.
proof fn lemma_run_wf(s: ArenaView, ls: Seq<Layout>)
    requires
        s.wf(),
        all_wf(ls),
    ensures
        s.after_all(ls).wf(),
        s.after_all(ls).base == s.base,
        s.after_all(ls).capacity == s.capacity,
    decreases ls.len(),
{
    if ls.len() > 0 {
        lemma_run_wf(s, ls.drop_last());
        lemma_step(s.after_all(ls.drop_last()), ls.last());
    }
}

proof fn lemma_take_step(s: ArenaView, ls: Seq<Layout>, k: int)
    requires
        0 <= k < ls.len(),
    ensures
        s.after_all(ls.take(k + 1)) == s.after_all(ls.take(k)).after_alloc(ls[k]),
{
    assert(ls.take(k + 1).drop_last() =~= ls.take(k));
}

/// The cursor only moves down over a run of requests.
proof fn lemma_cursor_falls(s: ArenaView, ls: Seq<Layout>, k1: int, k2: int)
    requires
        s.wf(),
        all_wf(ls),
        0 <= k1 <= k2 <= ls.len(),
    ensures
        s.after_all(ls.take(k2)).cursor <= s.after_all(ls.take(k1)).cursor,
    decreases k2 - k1,
{
    if k1 < k2 {
        lemma_cursor_falls(s, ls, k1, k2 - 1);
        lemma_take_step(s, ls, k2 - 1);
        assert(all_wf(ls.take(k2 - 1)));
        lemma_run_wf(s, ls.take(k2 - 1));
        lemma_step(s.after_all(ls.take(k2 - 1)), ls[k2 - 1]);
    }
}

/// Between two resets the arena never hands out overlapping memory: of any
/// two granted requests, the later block lies wholly below the earlier one,
/// and both lie inside `[base, base + capacity)`.
pub proof fn lemma_allocations_disjoint(s: ArenaView, ls: Seq<Layout>, i: int, j: int)
    requires
        s.wf(),
        all_wf(ls),
        0 <= i < j < ls.len(),
        nth_result(s, ls, i) is Some,
        nth_result(s, ls, j) is Some,
    ensures
        s.base <= nth_result(s, ls, j)->Some_0,
        nth_result(s, ls, j)->Some_0 + ls[j].size <= nth_result(s, ls, i)->Some_0,
        nth_result(s, ls, i)->Some_0 + ls[i].size <= s.end(),
{
    assert(all_wf(ls.take(i)));
    assert(all_wf(ls.take(j)));
    lemma_run_wf(s, ls.take(i));
    lemma_run_wf(s, ls.take(j));
    lemma_step(s.after_all(ls.take(i)), ls[i]);
    lemma_step(s.after_all(ls.take(j)), ls[j]);
    lemma_take_step(s, ls, i);
    lemma_cursor_falls(s, ls, i + 1, j);
}

/// A reset puts the arena back in the state it was built in: whatever was
/// requested since, the next request after a reset gets the address that the
/// first request after construction got.
pub proof fn lemma_reset_rewinds(base: nat, capacity: nat, ls: Seq<Layout>, l: Layout)
    requires
        ArenaView::fresh(base, capacity).wf(),
        all_wf(ls),
    ensures
        ArenaView::fresh(base, capacity).after_all(ls).rewound() == ArenaView::fresh(base, capacity),
        ArenaView::fresh(base, capacity).after_all(ls).rewound().alloc_result(l)
            == ArenaView::fresh(base, capacity).alloc_result(l),
{
    lemma_run_wf(ArenaView::fresh(base, capacity), ls);
}

} // verus!

//! The ledger of a connection pool: which of its fixed set of connection
//! slots are lent out and which are idle.
//!
//! The pool's owner keeps the connections themselves, one per slot, and asks
//! the ledger which slot to lend and whether a returned slot may go back.
//! Every slot is either idle or lent, so idle plus lent always equals the
//! size fixed at construction, and a slot comes back at most once per loan.

use vstd::prelude::*;

verus! {

/// The number of lent slots in `lent`.
pub open spec fn count_lent(lent: Seq<bool>) -> nat
    decreases lent.len(),
{
    if lent.len() == 0 {
        0
    } else {
        count_lent(lent.drop_last()) + if lent.last() {
            1nat
        } else {
            0nat
        }
    }
}

/// The first idle slot, if any.
pub open spec fn first_idle(lent: Seq<bool>) -> Option<nat> {
    if exists|i: int| 0 <= i < lent.len() && !lent[i] {
        let i = choose|i: int|
            0 <= i < lent.len() && !lent[i] && forall|j: int| 0 <= j < i ==> lent[j];
        Some(i as nat)
    } else {
        None
    }
}

/// What an acquire does: lends the first idle slot, or lends nothing and
/// leaves every slot as it was when none is idle (the caller then waits).
pub open spec fn acquire_step(lent: Seq<bool>) -> (Seq<bool>, Option<nat>) {
    match first_idle(lent) {
        Some(i) => (lent.update(i as int, true), Some(i)),
        None => (lent, None),
    }
}

/// What a release does: a lent slot becomes idle and the release counts;
/// an idle or unknown slot changes nothing and the release does not count.
pub open spec fn release_step(lent: Seq<bool>, slot: int) -> (Seq<bool>, bool) {
    if 0 <= slot < lent.len() && lent[slot] {
        (lent.update(slot, false), true)
    } else {
        (lent, false)
    }
}

/// A lent slot index as a natural number.
pub open spec fn slot_nat(r: Option<usize>) -> Option<nat> {
    match r {
        Some(i) => Some(i as nat),
        None => None,
    }
}

/// The slots after `k` acquires.
pub open spec fn after_acquires(lent: Seq<bool>, k: nat) -> Seq<bool>
    decreases k,
{
    if k == 0 {
        lent
    } else {
        acquire_step(after_acquires(lent, (k - 1) as nat)).0
    }
}

/// A pool whose slots are all idle.
pub open spec fn all_idle(n: nat) -> Seq<bool> {
    Seq::new(n, |i: int| false)
}

/// The ledger of a pool of connection slots.
#[derive(Debug)]
pub struct PoolLedger {
    lent: Vec<bool>,
    lent_count: usize,
}

impl PoolLedger {
    /// Which slots are lent.
    pub closed spec fn view_lent(&self) -> Seq<bool> {
        self.lent@
    }

    /// The counter agrees with the slots.
    pub closed spec fn wf(&self) -> bool {
        self.lent_count == count_lent(self.lent@)
    }

    /// A ledger of `size` idle slots.
    pub fn new(size: usize) -> (r: Self)
        ensures
            r.wf(),
            r.view_lent() == all_idle(size as nat),
    {
        let mut lent: Vec<bool> = Vec::new();
        let mut i: usize = 0;
        while i < size
            invariant
                i <= size,
                lent@ == all_idle(i as nat),
            decreases size - i,
        {
            lent.push(false);
            i = i + 1;
            assert(lent@ =~= all_idle(i as nat));
        }
        proof {
            lemma_count_all_idle(size as nat);
        }
        PoolLedger { lent, lent_count: 0 }
    }

    /// The number of slots, fixed at construction.
    pub fn size(&self) -> (r: usize)
        ensures
            r == self.view_lent().len(),
    {
        self.lent.len()
    }

    /// The number of lent slots.
    pub fn checked_out(&self) -> (r: usize)
        requires
            self.wf(),
        ensures
            r == count_lent(self.view_lent()),
    {
        self.lent_count
    }

    /// The number of idle slots.
    pub fn idle(&self) -> (r: usize)
        requires
            self.wf(),
        ensures
            r + count_lent(self.view_lent()) == self.view_lent().len(),
    {
        proof {
            lemma_count_bounded(self.lent@);
        }
        self.lent.len() - self.lent_count
    }

    /// Whether `slot` is lent.
    pub fn is_lent(&self, slot: usize) -> (r: bool)
        ensures
            r == (slot < self.view_lent().len() && self.view_lent()[slot as int]),
    {
        slot < self.lent.len() && self.lent[slot]
    }

    /// Lends the first idle slot, or returns `None` when every slot is lent.
    pub fn acquire(&mut self) -> (r: Option<usize>)
        requires
            old(self).wf(),
        ensures
            final(self).wf(),
            (final(self).view_lent(), slot_nat(r)) == acquire_step(
                old(self).view_lent(),
            ),
    {
        let mut i: usize = 0;
        while i < self.lent.len()
            invariant
                i <= self.lent@.len(),
                self.lent@ == old(self).lent@,
                self.lent_count == old(self).lent_count,
                self.lent_count == count_lent(self.lent@),
                forall|j: int| 0 <= j < i ==> self.lent@[j],
            decreases self.lent@.len() - i,
        {
            if !self.lent[i] {
                let n = self.lent.len();
                proof {
                    lemma_first_idle(self.lent@, i as int);
                    lemma_count_update(self.lent@, i as int, true);
                    lemma_count_bounded(self.lent@.update(i as int, true));
                    assert(self.lent_count + 1 <= n);
                }
                self.lent.set(i, true);
                self.lent_count = self.lent_count + 1;
                return Some(i);
            }
            i = i + 1;
        }
        assert(first_idle(self.lent@) is None);
        None
    }

    /// Takes back `slot`: returns whether it was lent; if so it is idle now.
    /// A slot that is idle, or out of range, changes nothing.
    pub fn release(&mut self, slot: usize) -> (r: bool)
        requires
            old(self).wf(),
        ensures
            final(self).wf(),
            (final(self).view_lent(), r) == release_step(old(self).view_lent(), slot as int),
    {
        if slot < self.lent.len() && self.lent[slot] {
            proof {
                lemma_count_update(self.lent@, slot as int, false);
            }
            self.lent.set(slot, false);
            self.lent_count = self.lent_count - 1;
            true
        } else {
            false
        }
    }
}

proof fn lemma_count_bounded(lent: Seq<bool>)
    ensures
        count_lent(lent) <= lent.len(),
    decreases lent.len(),
{
    if lent.len() > 0 {
        lemma_count_bounded(lent.drop_last());
    }
}

proof fn lemma_count_all_idle(n: nat)
    ensures
        count_lent(all_idle(n)) == 0,
    decreases n,
{
    if n > 0 {
        assert(all_idle(n).drop_last() =~= all_idle((n - 1) as nat));
        lemma_count_all_idle((n - 1) as nat);
    }
}

/// Setting one slot changes the count by one, or not at all if it already
/// held that value.
proof fn lemma_count_update(lent: Seq<bool>, i: int, v: bool)
    requires
        0 <= i < lent.len(),
    ensures
        count_lent(lent.update(i, v)) == count_lent(lent) - (if lent[i] {
            1int
        } else {
            0int
        }) + (if v {
            1int
        } else {
            0int
        }),
    decreases lent.len(),
{
    let u = lent.update(i, v);
    if i == lent.len() - 1 {
        assert(u.drop_last() =~= lent.drop_last());
    } else {
        assert(u.drop_last() =~= lent.drop_last().update(i, v));
        lemma_count_update(lent.drop_last(), i, v);
    }
}

proof fn lemma_first_idle(lent: Seq<bool>, i: int)
    requires
        0 <= i < lent.len(),
        !lent[i],
        forall|j: int| 0 <= j < i ==> lent[j],
    ensures
        first_idle(lent) == Some(i as nat),
{
    let k = choose|k: int| 0 <= k < lent.len() && !lent[k] && forall|j: int| 0 <= j < k ==> lent[j];
    assert(0 <= i < lent.len() && !lent[i] && forall|j: int| 0 <= j < i ==> lent[j]);
    if k < i {
        assert(lent[k]);
    }
    if i < k {
        assert(lent[i]);
    }
}

/// Every slot is either idle or lent: the idle slots and the lent slots
/// together are always the pool's size.
pub proof fn lemma_idle_plus_lent_is_size(lent: Seq<bool>)
    ensures
        (lent.len() - count_lent(lent)) + count_lent(lent) == lent.len(),
        count_lent(lent) <= lent.len(),
{
    lemma_count_bounded(lent);
}

/// A release hands a lent slot back exactly once: the first release of it
/// counts and makes one more slot idle; a second release of it changes
/// nothing.
pub proof fn lemma_release_exactly_once(lent: Seq<bool>, slot: int)
    requires
        0 <= slot < lent.len(),
        lent[slot],
    ensures
        release_step(lent, slot).1,
        count_lent(release_step(lent, slot).0) + 1 == count_lent(lent),
        release_step(release_step(lent, slot).0, slot) == (release_step(lent, slot).0, false),
{
    lemma_count_update(lent, slot, false);
}

/// A new pool of `n` slots lends `n` slots to `n` acquires in a row, none of
/// which waits, each a different slot; the next acquire finds none idle and
/// waits until a release.
pub proof fn lemma_pool_lends_exactly_size(n: nat)
    ensures
        forall|k: nat|
            k < n ==> (#[trigger] acquire_step(after_acquires(all_idle(n), k))).1 == Some(k),
        acquire_step(after_acquires(all_idle(n), n)).1 is None,
        acquire_step(after_acquires(all_idle(n), n)).0 == after_acquires(all_idle(n), n),
{
    assert forall|k: nat| k <= n implies after_acquires(all_idle(n), k) == Seq::new(
        n,
        |i: int| i < k,
    ) by {
        lemma_after_acquires(n, k);
    }
    assert forall|k: nat| k < n implies (#[trigger] acquire_step(
        after_acquires(all_idle(n), k),
    )).1 == Some(k) by {
        lemma_first_idle(Seq::new(n, |i: int| i < k), k as int);
    }
    let full = Seq::new(n, |i: int| i < n);
    assert(first_idle(full) is None);
}

proof fn lemma_after_acquires(n: nat, k: nat)
    requires
        k <= n,
    ensures
        after_acquires(all_idle(n), k) == Seq::new(n, |i: int| i < k),
    decreases k,
{
    if k == 0 {
        assert(all_idle(n) =~= Seq::new(n, |i: int| i < 0));
    } else {
        lemma_after_acquires(n, (k - 1) as nat);
        let prev = Seq::new(n, |i: int| i < k - 1);
        lemma_first_idle(prev, k - 1);
        assert(prev.update(k - 1, true) =~= Seq::new(n, |i: int| i < k));
    }
}

/// With every slot lent, an acquire waits and changes nothing; once a slot
/// is released, the next acquire lends exactly that slot.
pub proof fn lemma_release_unblocks_waiting_acquire(lent: Seq<bool>, slot: int)
    requires
        0 <= slot < lent.len(),
        forall|i: int| 0 <= i < lent.len() ==> lent[i],
    ensures
        acquire_step(lent) == (lent, None::<nat>),
        release_step(lent, slot).1,
        acquire_step(release_step(lent, slot).0) == (lent, Some(slot as nat)),
{
    let freed = lent.update(slot, false);
    assert forall|j: int| 0 <= j < slot implies freed[j] by {}
    lemma_first_idle(freed, slot);
    assert(freed.update(slot, true) =~= lent);
}

} // verus!

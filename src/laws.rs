//! What a run of additions leaves in a counter. Each `add` on either state is
//! one `wrapped_add` step taken under a lock, so a run of them, in whatever
//! order the lock admitted them, is a `replay` of the deltas in that order.
use vstd::prelude::*;

use crate::observer::{nested_locking, LockEvent, Target};
use crate::state::wrapped_add;
use vstd::arithmetic::div_mod::lemma_add_mod_noop_right;

verus! {

/// The sum of the deltas, as a mathematical integer.
pub open spec fn sum_of(ds: Seq<u64>) -> int
    decreases ds.len(),
{
    if ds.len() == 0 {
        0
    } else {
        sum_of(ds.drop_last()) + ds.last()
    }
}

/// The counter after the deltas are added, one `add` each and in this order,
/// to a counter that held `start`.
pub open spec fn replay(start: u64, ds: Seq<u64>) -> u64
    decreases ds.len(),
{
    if ds.len() == 0 {
        start
    } else {
        wrapped_add(replay(start, ds.drop_last()), ds.last())
    }
}

/// Adding deltas one after another to a counter that starts at zero: the value
/// returned by the `i`-th addition is the running sum of the first `i` deltas,
/// taken modulo 2^64, and exactly that sum while it fits in a `u64`.
pub proof fn lemma_sequential_adds(ds: Seq<u64>, i: int)
    requires
        0 <= i <= ds.len(),
    ensures
        replay(0, ds.take(i)) == sum_of(ds.take(i)) % 0x1_0000_0000_0000_0000int,
        sum_of(ds.take(i)) <= u64::MAX ==> replay(0, ds.take(i)) == sum_of(ds.take(i)),
{
    lemma_replay_from_zero(ds.take(i));
    lemma_sum_nonnegative(ds.take(i));
}

/// Adds that run concurrently under one lock, in any interleaving, lose no
/// update: every order of the same deltas leaves the same counter, their sum
/// modulo 2^64.
pub proof fn lemma_interleaved_adds(ds: Seq<u64>, order: Seq<u64>)
    requires
        order.to_multiset() == ds.to_multiset(),
    ensures
        replay(0, order) == replay(0, ds),
        replay(0, order) == sum_of(ds) % 0x1_0000_0000_0000_0000int,
{
    lemma_sum_reordered(ds, order);
    lemma_replay_from_zero(ds);
    lemma_replay_from_zero(order);
}

/// The two-handle paths take the same two locks in opposite orders, and each
/// waits for its second lock while it holds its first: `lock_twice_1(a, b)`
/// holds `a`'s lock while it waits for `b`'s, and `lock_twice_2(a, b)` holds
/// `b`'s while it waits for `a`'s. This is the order inversion under which the
/// two, run at the same time on one pair of handles, can deadlock.
pub proof fn lemma_inverted_lock_order()
    ensures
        nested_locking(Target::This, Target::Other)[1] == LockEvent::Acquired(Target::This),
        nested_locking(Target::This, Target::Other)[2] == LockEvent::WaitBegin(Target::Other),
        nested_locking(Target::Other, Target::This)[1] == LockEvent::Acquired(Target::Other),
        nested_locking(Target::Other, Target::This)[2] == LockEvent::WaitBegin(Target::This),
{
}

proof fn lemma_replay_from_zero(ds: Seq<u64>)
    ensures
        replay(0, ds) == sum_of(ds) % 0x1_0000_0000_0000_0000int,
    decreases ds.len(),
{
    if ds.len() > 0 {
        let m = 0x1_0000_0000_0000_0000int;
        lemma_replay_from_zero(ds.drop_last());
        lemma_add_mod_noop_right(ds.last() as int, sum_of(ds.drop_last()), m);
    }
}

proof fn lemma_sum_nonnegative(ds: Seq<u64>)
    ensures
        sum_of(ds) >= 0,
    decreases ds.len(),
{
    if ds.len() > 0 {
        lemma_sum_nonnegative(ds.drop_last());
    }
}

proof fn lemma_sum_remove(s: Seq<u64>, j: int)
    requires
        0 <= j < s.len(),
    ensures
        sum_of(s) == sum_of(s.remove(j)) + s[j],
    decreases s.len(),
{
    if j == s.len() - 1 {
        assert(s.remove(j) =~= s.drop_last());
    } else {
        assert(s.remove(j).drop_last() =~= s.drop_last().remove(j));
        lemma_sum_remove(s.drop_last(), j);
    }
}

proof fn lemma_sum_reordered(ds: Seq<u64>, order: Seq<u64>)
    requires
        order.to_multiset() == ds.to_multiset(),
    ensures
        sum_of(order) == sum_of(ds),
    decreases ds.len(),
{
    broadcast use vstd::seq_lib::group_to_multiset_ensures;
    broadcast use vstd::multiset::group_multiset_axioms;

    if ds.len() == 0 {
        order.to_multiset_ensures();
        ds.to_multiset_ensures();
        assert(order.len() == 0);
    } else {
        let x = ds.last();
        let rest = ds.drop_last();
        assert(ds =~= rest.push(x));
        assert(ds.to_multiset().count(x) > 0);
        assert(order.contains(x));
        let j = choose|j: int| 0 <= j < order.len() && order[j] == x;
        lemma_sum_remove(order, j);
        assert(order.remove(j).to_multiset() =~= rest.to_multiset());
        lemma_sum_reordered(rest, order.remove(j));
    }
}

} // verus!

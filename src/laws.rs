//! What holds of a group over whole histories of `add` and `done` calls.
use vstd::prelude::*;

use crate::count::{
    Op, Wake, WaitStep, count_after, count_after_done, released, replay, wait_step_of, wake_of,
};

verus! {

/// The total of all `add(n)` amounts in a history.
pub open spec fn added(ops: Seq<Op>) -> nat
    decreases ops.len(),
{
    if ops.len() == 0 {
        0
    } else {
        added(ops.drop_last()) + match ops.last() {
            Op::Add(n) => n as nat,
            Op::Done => 0nat,
        }
    }
}

/// The number of `done()` calls in a history.
pub open spec fn dones(ops: Seq<Op>) -> nat
    decreases ops.len(),
{
    if ops.len() == 0 {
        0
    } else {
        dones(ops.drop_last()) + match ops.last() {
            Op::Add(_) => 0nat,
            Op::Done => 1nat,
        }
    }
}

/// Every `done()` of the history matches an earlier `add`: at no point have
/// more units been completed than were added.
pub open spec fn matched(ops: Seq<Op>) -> bool {
    forall|i: int| 0 <= i <= ops.len() ==> #[trigger] dones(ops.take(i)) <= added(ops.take(i))
}

/// A history of `k` calls of `done()` alone.
pub open spec fn only_dones(k: nat) -> Seq<Op> {
    Seq::new(k, |i: int| Op::Done)
}

/// What each of `k` parked waiters does after a `done()` that left the
/// count `c` and asked to wake `w`: woken waiters look at the count again,
/// the others stay parked.
pub open spec fn after_wake(c: nat, w: Wake, k: nat) -> Seq<WaitStep> {
    if w == Wake::All {
        Seq::new(k, |i: int| wait_step_of(c))
    } else {
        Seq::new(k, |i: int| WaitStep::Park)
    }
}

/// Replaying two histories one after the other is replaying the second
/// from where the first left the count.
pub proof fn lemma_replay_append(start: nat, first: Seq<Op>, second: Seq<Op>)
    ensures
        replay(start, first + second) == replay(replay(start, first), second),
    decreases second.len(),
{
    if second.len() == 0 {
        assert(first + second =~= first);
    } else {
        lemma_replay_append(start, first, second.drop_last());
        assert((first + second).drop_last() =~= first + second.drop_last());
        assert((first + second).last() == second.last());
    }
}

/// Counting: when every `done()` matches an earlier `add`, the count is the
/// total added minus the number of `done()` calls, and a waiter returns
/// exactly when the number of `done()` calls equals the total added.
pub proof fn lemma_counting(ops: Seq<Op>)
    requires
        matched(ops),
    ensures
        replay(0, ops) == added(ops) - dones(ops),
        released(replay(0, ops)) <==> dones(ops) == added(ops),
        wait_step_of(replay(0, ops)) == WaitStep::Return <==> dones(ops) == added(ops),
    decreases ops.len(),
{
    assert(ops.take(ops.len() as int) =~= ops);
    assert(dones(ops.take(ops.len() as int)) <= added(ops.take(ops.len() as int)));
    if ops.len() > 0 {
        let p = ops.drop_last();
        assert forall|i: int| 0 <= i <= p.len() implies #[trigger] dones(p.take(i)) <= added(
            p.take(i),
        ) by {
            assert(p.take(i) =~= ops.take(i));
            assert(dones(ops.take(i)) <= added(ops.take(i)));
        }
        lemma_counting(p);
    }
}

/// `k` calls of `done()` on the count `c` lower it by `k`, but never below
/// zero.
pub proof fn lemma_dones_from(c: nat, k: nat)
    ensures
        replay(c, only_dones(k)) == (if k <= c {
            (c - k) as nat
        } else {
            0
        }),
    decreases k,
{
    if k > 0 {
        assert(only_dones(k).drop_last() =~= only_dones((k - 1) as nat));
        lemma_dones_from(c, (k - 1) as nat);
    }
}

/// No underflow: `done()` calls with no matching `add` leave the count at
/// zero.
pub proof fn lemma_no_underflow(k: nat)
    ensures
        replay(0, only_dones(k)) == 0,
{
    lemma_dones_from(0, k);
}

/// A history of `add(n)` calls alone, one for each amount.
pub open spec fn only_adds(amounts: Seq<usize>) -> Seq<Op> {
    amounts.map_values(|n: usize| Op::Add(n))
}

/// The sum of a sequence of amounts.
pub open spec fn total(amounts: Seq<usize>) -> nat
    decreases amounts.len(),
{
    if amounts.len() == 0 {
        0
    } else {
        total(amounts.drop_last()) + amounts.last() as nat
    }
}

/// `add` calls alone raise the count by the sum of their amounts.
pub proof fn lemma_adds(amounts: Seq<usize>)
    ensures
        replay(0, only_adds(amounts)) == total(amounts),
    decreases amounts.len(),
{
    if amounts.len() > 0 {
        assert(only_adds(amounts).drop_last() =~= only_adds(amounts.drop_last()));
        lemma_adds(amounts.drop_last());
    }
}

/// Counting with the floor at zero: after `add` calls with the given
/// amounts and then `k` calls of `done()`, the count is the sum of the
/// amounts less `k`, floored at zero, and a waiter returns exactly when `k`
/// has reached that sum.
pub proof fn lemma_counting_adds_first(amounts: Seq<usize>, k: nat)
    ensures
        replay(0, only_adds(amounts) + only_dones(k)) == (if k <= total(amounts) {
            (total(amounts) - k) as nat
        } else {
            0
        }),
        released(replay(0, only_adds(amounts) + only_dones(k))) <==> k >= total(amounts),
{
    lemma_replay_append(0, only_adds(amounts), only_dones(k));
    lemma_adds(amounts);
    lemma_dones_from(total(amounts), k);
}

/// Release of all: the `done()` that takes the count from one to zero wakes
/// every parked waiter, however many there are, and each of them returns.
pub proof fn lemma_release_all(k: nat)
    ensures
        wake_of(1) == Wake::All,
        after_wake(count_after_done(1), wake_of(1), k) =~= Seq::new(k, |i: int| WaitStep::Return),
{
}

/// Reuse: once a history has brought the count back to zero, a further
/// history behaves as it would on a fresh group.
pub proof fn lemma_reuse(first: Seq<Op>, second: Seq<Op>)
    requires
        released(replay(0, first)),
    ensures
        replay(0, first + second) == replay(0, second),
        released(replay(0, first + second)) <==> released(replay(0, second)),
{
    lemma_replay_append(0, first, second);
}

} // verus!

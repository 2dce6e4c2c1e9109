//! The count of outstanding work units that a wait group keeps, and the
//! decisions taken on it: what `add` and `done` leave behind, whether a
//! `done` must wake the waiters, and whether a waiter may return.
use vstd::prelude::*;

verus! {

/// One completed call on a group: `add(n)` or `done()`.
pub enum Op {
    Add(usize),
    Done,
}

/// The count after `add(n)`.
pub open spec fn count_after_add(c: nat, n: nat) -> nat {
    c + n
}

/// The count after `done()`: one less, but never below zero.
pub open spec fn count_after_done(c: nat) -> nat {
    if c == 0 {
        0
    } else {
        (c - 1) as nat
    }
}

/// The count after one operation.
pub open spec fn count_after(c: nat, op: Op) -> nat {
    match op {
        Op::Add(n) => count_after_add(c, n as nat),
        Op::Done => count_after_done(c),
    }
}

/// The count after a whole history of operations, from `start`.
pub open spec fn replay(start: nat, ops: Seq<Op>) -> nat
    decreases ops.len(),
{
    if ops.len() == 0 {
        start
    } else {
        count_after(replay(start, ops.drop_last()), ops.last())
    }
}

/// A waiter may return exactly when no work is outstanding.
pub open spec fn released(c: nat) -> bool {
    c == 0
}

/// What a waiter does after looking at the count.
#[derive(PartialEq, Eq, Structural, Clone, Copy, Debug)]
pub enum WaitStep {
    /// The count is zero: return at once.
    Return,
    /// Work is outstanding: park until woken, then look again.
    Park,
}

/// Whom a `done()` must wake.
#[derive(PartialEq, Eq, Structural, Clone, Copy, Debug)]
pub enum Wake {
    Nobody,
    /// This call took the count from one to zero: every parked waiter.
    All,
}

/// The decision of a waiter that sees the count `c`.
pub open spec fn wait_step_of(c: nat) -> WaitStep {
    if released(c) {
        WaitStep::Return
    } else {
        WaitStep::Park
    }
}

/// The wake decision of a `done()` that finds the count `c`.
pub open spec fn wake_of(c: nat) -> Wake {
    if c == 1 {
        Wake::All
    } else {
        Wake::Nobody
    }
}

/// The counter of one group, as it stands under the group's lock.
pub struct Counter {
    count: usize,
}

impl View for Counter {
    type V = nat;

    closed spec fn view(&self) -> nat {
        self.count as nat
    }
}

impl Counter {
    /// A counter with no outstanding work.
    pub fn new() -> (r: Counter)
        ensures
            r@ == 0,
    {
        Counter { count: 0 }
    }

    /// Accounts for `num` more units of work.
    pub fn add(&mut self, num: usize)
        requires
            old(self)@ + num <= usize::MAX,
        ensures
            final(self)@ == count_after_add(old(self)@, num as nat),
            final(self)@ == count_after(old(self)@, Op::Add(num)),
    {
        self.count = self.count + num;
    }

    /// Whether `add(num)` fits in the counter.
    pub fn can_add(&self, num: usize) -> (r: bool)
        ensures
            r == (self@ + num <= usize::MAX),
    {
        num <= usize::MAX - self.count
    }

    /// Records one completed unit of work. A call on a zero count leaves it
    /// at zero. The call that takes the count from one to zero asks for
    /// every parked waiter to be woken.
    pub fn done(&mut self) -> (w: Wake)
        ensures
            final(self)@ == count_after_done(old(self)@),
            final(self)@ == count_after(old(self)@, Op::Done),
            w == wake_of(old(self)@),
    {
        if self.count == 1 {
            self.count = 0;
            Wake::All
        } else if self.count == 0 {
            Wake::Nobody
        } else {
            self.count = self.count - 1;
            Wake::Nobody
        }
    }

    /// The number of outstanding units of work.
    pub fn waitings(&self) -> (r: usize)
        ensures
            r as nat == self@,
    {
        self.count
    }

    /// What a waiter does now: return on a zero count, park otherwise.
    pub fn wait_step(&self) -> (r: WaitStep)
        ensures
            r == wait_step_of(self@),
            r == WaitStep::Return <==> self@ == 0,
    {
        if self.count == 0 {
            WaitStep::Return
        } else {
            WaitStep::Park
        }
    }
}

/// The new value that `done()` writes into a count updated in place
/// (compare-and-swap style), or `None` where the count stays as it is.
pub fn done_update(count: usize) -> (r: Option<usize>)
    ensures
        r == (if count == 0 {
            None::<usize>
        } else {
            Some((count - 1) as usize)
        }),
        count > 0 ==> r.unwrap() as nat == count_after_done(count as nat),
{
    if count == 0 {
        None
    } else {
        Some(count - 1)
    }
}

/// The new value that `add(num)` writes into a count updated in place, or
/// `None` where it would not fit in the counter.
pub fn add_update(count: usize, num: usize) -> (r: Option<usize>)
    ensures
        r == (if count + num <= usize::MAX {
            Some((count + num) as usize)
        } else {
            None::<usize>
        }),
{
    if num <= usize::MAX - count {
        Some(count + num)
    } else {
        None
    }
}

/// Whether a `done()` that found the count `prev` must wake the waiters.
pub fn wakes_waiters(prev: usize) -> (r: bool)
    ensures
        r == (wake_of(prev as nat) == Wake::All),
        r == (prev == 1),
{
    prev == 1
}

} // verus!

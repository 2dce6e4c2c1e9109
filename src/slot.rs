//! The suspending group's notification register and its poll decision.
//!
//! The register holds at most one continuation: registering another one
//! replaces it, so only the most recent waiter is woken when the count
//! reaches zero. A poll registers first and reads the count afterwards, so
//! that a `done()` between the two cannot go unnoticed.
use vstd::prelude::*;

verus! {

/// A single-slot holder for the most recently registered continuation.
pub struct WakerSlot<W> {
    waker: Option<W>,
}

impl<W> View for WakerSlot<W> {
    type V = Option<W>;

    closed spec fn view(&self) -> Option<W> {
        self.waker
    }
}

impl<W> WakerSlot<W> {
    /// An empty register.
    pub fn new() -> (r: WakerSlot<W>)
        ensures
            r@ == None::<W>,
    {
        WakerSlot { waker: None }
    }

    /// Registers `w`, silently replacing whatever was registered before.
    pub fn register(&mut self, w: W)
        ensures
            final(self)@ == Some(w),
    {
        self.waker = Some(w);
    }

    /// Takes the registered continuation out, leaving the register empty.
    pub fn take(&mut self) -> (r: Option<W>)
        ensures
            r == old(self)@,
            final(self)@ == None::<W>,
    {
        let r = self.waker.take();
        r
    }

    /// Whether a continuation is registered.
    pub fn is_registered(&self) -> (r: bool)
        ensures
            r == self@ is Some,
    {
        self.waker.is_some()
    }
}

/// The outcome of one poll of a suspended waiter.
#[derive(PartialEq, Eq, Structural, Clone, Copy, Debug)]
pub enum PollStep {
    /// The count was zero: the wait is over.
    Ready,
    /// Work is outstanding: suspend until the registered continuation runs.
    Pending,
}

/// The outcome of a poll that, after registering, reads the count `c`.
pub open spec fn poll_step_of(c: nat) -> PollStep {
    if c == 0 {
        PollStep::Ready
    } else {
        PollStep::Pending
    }
}

/// Decides a poll from the count read after registering.
pub fn poll_step(count: usize) -> (r: PollStep)
    ensures
        r == poll_step_of(count as nat),
{
    if count == 0 {
        PollStep::Ready
    } else {
        PollStep::Pending
    }
}

} // verus!

//! The reverse adapter: a native promise node driven by a managed
//! future, so the native event loop can await work running on the
//! managed side.
//!
//! Polling the managed future is outside work; the event-loop runner
//! performs it and hands the outcome in. The adapter's verified part is
//! the state it keeps between polls: the stored result, the armed native
//! waker, and the cancellation behaviour.

use vstd::prelude::*;

use crate::waker::KjWaker;

verus! {

/// The outcome of polling the managed future once.
#[derive(Clone, Copy, PartialEq, Eq, Structural, Debug)]
pub enum FuturePollStatus {
    /// The future is not finished; a wake will arrive later.
    Pending,
    /// The future finished with a value.
    Complete(u64),
    /// The future finished with a typed error.
    Error(u64),
}

/// What ran when an unfinished adapter was destroyed.
#[derive(Clone, Copy, PartialEq, Eq, Structural, Debug)]
pub struct CancelReport {
    /// The boxed managed future was dropped while still in flight.
    pub future_dropped: bool,
    /// An armed native waker was discarded without being invoked.
    pub waker_discarded: bool,
}

/// A native promise node implemented over a boxed managed future: stores
/// the future's eventual result and the native waker armed for the next
/// wake.
pub struct KjPromiseNodeImpl {
    result: Option<FuturePollStatus>,
    armed: Option<KjWaker>,
}

impl KjPromiseNodeImpl {
    /// The stored result, once the future completed.
    pub closed spec fn spec_result(&self) -> Option<FuturePollStatus> {
        self.result
    }

    /// The native waker armed for the next wake, if any.
    pub closed spec fn spec_armed(&self) -> Option<KjWaker> {
        self.armed
    }

    /// Whether the future has completed and the node is ready.
    pub open spec fn spec_done(&self) -> bool {
        self.spec_result() is Some
    }

    /// Wrap a managed future as a native promise node. Nothing has been
    /// polled and no waker is armed.
    pub fn new() -> (a: KjPromiseNodeImpl)
        ensures
            !a.spec_done(),
            a.spec_armed() is None,
    {
        KjPromiseNodeImpl { result: None, armed: None }
    }

    /// One invocation of the adapter's poll hook by the native
    /// scheduler: `outcome` is what polling the boxed future produced,
    /// `waker` the native waker supplied for this poll. On completion
    /// the result is stored and readiness is signalled by returning it;
    /// while pending, the supplied waker is armed — replacing any
    /// earlier one — for the wake that will follow.
    pub fn poll_hook(&mut self, outcome: FuturePollStatus, waker: KjWaker) -> (r: FuturePollStatus)
        requires
            !old(self).spec_done(),
        ensures
            r == outcome,
            outcome == FuturePollStatus::Pending ==> {
                &&& !final(self).spec_done()
                &&& final(self).spec_armed() == Some(waker)
            },
            outcome != FuturePollStatus::Pending ==> {
                &&& final(self).spec_result() == Some(outcome)
                &&& final(self).spec_armed() is None
            },
    {
        match outcome {
            FuturePollStatus::Pending => {
                self.armed = Some(waker);
                FuturePollStatus::Pending
            },
            _ => {
                self.result = Some(outcome);
                self.armed = None;
                outcome
            },
        }
    }

    /// Take the completed future's outcome out of the node.
    pub fn take_result(&mut self) -> (r: FuturePollStatus)
        requires
            old(self).spec_done(),
        ensures
            Some(r) == old(self).spec_result(),
            !final(self).spec_done(),
            final(self).spec_armed() == old(self).spec_armed(),
    {
        self.result.take().unwrap()
    }

    /// Destroy the adapter. If the future had not completed it is
    /// dropped in flight — cancelling its work — and an armed native
    /// waker is discarded; no further wake is delivered either way,
    /// since the report carries no waker to invoke.
    pub fn cancel(self) -> (r: CancelReport)
        ensures
            r.future_dropped == !self.spec_done(),
            r.waker_discarded == (self.spec_armed() is Some),
    {
        CancelReport {
            future_dropped: self.result.is_none(),
            waker_discarded: self.armed.is_some(),
        }
    }
}

} // verus!

//! The waker bridge: the pieces that carry a wake handle across the
//! runtime boundary.
//!
//! A managed wake handle is modelled as a small token naming the task to be
//! rescheduled; invoking it is modelled as handing the token back to the
//! caller, who stands for the executor. The single-item mailbox
//! (`OptionWaker`) holds at most one pending handle: storing refreshes it,
//! a wake consumes it, and waking an empty slot is a protocol violation.

use vstd::prelude::*;

use crate::ProtocolViolation;

verus! {

/// A managed-runtime wake handle: calling it reschedules the task it names.
/// It is cheap to clone and safe to move across threads; the model carries
/// only the identity of the task to be rescheduled.
#[derive(Clone, Copy, PartialEq, Eq, Structural, Debug)]
pub struct Waker {
    /// The task this handle reschedules when invoked.
    pub task: u64,
}

/// A native-side wake handle, usable directly by the native event loop
/// without wrapping a managed handle first.
#[derive(Clone, Copy, PartialEq, Eq, Structural, Debug)]
pub struct KjWaker {
    /// The identity of the native waker object.
    pub id: u64,
}

/// A borrowed view of a managed wake handle, valid only for the duration of
/// the current call; storing it past that point goes through `OptionWaker`,
/// which clones the handle.
pub struct WakerRef<'a> {
    handle: &'a Waker,
}

impl<'a> WakerRef<'a> {
    /// The wake handle this reference wraps, for contracts.
    pub closed spec fn spec_handle(&self) -> Waker {
        *self.handle
    }

    /// Wrap a wake handle for the duration of the current call.
    pub fn new(handle: &'a Waker) -> (r: WakerRef<'a>)
        ensures
            r.spec_handle() == *handle,
    {
        WakerRef { handle }
    }
}

/// The single-item mailbox for a pending wake handle.
pub struct OptionWaker {
    inner: Option<Waker>,
}

/// The slot holding `w`, for contracts: every operation on `OptionWaker`
/// pins its result to a value of this shape.
pub closed spec fn spec_option_waker(w: Option<Waker>) -> OptionWaker {
    OptionWaker { inner: w }
}

/// The slot built by `spec_option_waker(w)` holds exactly `w`.
pub broadcast proof fn lemma_spec_option_waker_contents(w: Option<Waker>)
    ensures
        #[trigger] spec_option_waker(w).spec_waker() == w,
{
}

impl OptionWaker {
    /// The stored handle, if any, for contracts.
    pub closed spec fn spec_waker(&self) -> Option<Waker> {
        self.inner
    }

    /// An empty slot.
    pub fn empty() -> (r: OptionWaker)
        ensures
            r == spec_option_waker(None),
            r.spec_waker() is None,
    {
        OptionWaker { inner: None }
    }

    /// Store a copy of the handle so that it survives past the current
    /// call. If a handle is already stored, the new one replaces it.
    pub fn set(&mut self, waker: &WakerRef)
        ensures
            *final(self) == spec_option_waker(Some(waker.spec_handle())),
            final(self).spec_waker() == Some(waker.spec_handle()),
    {
        self.inner = Some(*waker.handle);
    }

    /// Drop any stored handle without invoking it. Used when a poll
    /// completes synchronously and no wake will be needed.
    pub fn set_none(&mut self)
        ensures
            *final(self) == spec_option_waker(None),
            final(self).spec_waker() is None,
    {
        self.inner = None;
    }

    /// Remove the stored handle and hand it to the caller for invocation,
    /// exactly once. Waking with no handle stored is a protocol violation,
    /// which the precondition rules out for verified callers; use
    /// `consume_and_wake` where the slot may be empty.
    pub fn wake_mut(&mut self) -> (w: Waker)
        requires
            old(self).spec_waker() is Some,
        ensures
            Some(w) == old(self).spec_waker(),
            *final(self) == spec_option_waker(None),
            final(self).spec_waker() is None,
    {
        let w = self.inner.unwrap();
        self.inner = None;
        w
    }

    /// Like `wake_mut`, but reports the empty-slot protocol violation as a
    /// typed error instead of presupposing a stored handle: the fatal,
    /// descriptive failure owed when the poll/wake protocol was broken.
    pub fn consume_and_wake(&mut self) -> (r: Result<Waker, ProtocolViolation>)
        ensures
            old(self).spec_waker() matches Some(w) ==> r == Result::<Waker, ProtocolViolation>::Ok(w),
            old(self).spec_waker() is None ==> r == Result::<Waker, ProtocolViolation>::Err(
                ProtocolViolation::EmptyWakerSlot,
            ),
            *final(self) == spec_option_waker(None),
            final(self).spec_waker() is None,
    {
        match self.inner {
            Some(w) => {
                self.inner = None;
                Ok(w)
            },
            None => Err(ProtocolViolation::EmptyWakerSlot),
        }
    }
}

} // verus!

//! The opaque promise handle: an owning, move-only handle to a native
//! in-flight computation.
//!
//! The native library's promise node is opaque to callers; what the bridge
//! reads of it is its resolution state, so that state is what the model
//! holds: pending, fulfilled with a value, or rejected with an error code.
//! Ownership transfers by move and the node is consumed exactly once, which
//! Rust's move semantics enforce.

use vstd::prelude::*;

verus! {

/// The resolution state of a native promise.
#[derive(Clone, Copy, PartialEq, Eq, Structural, Debug)]
pub enum PromiseState {
    /// The computation has not finished.
    Pending,
    /// The computation finished with a value.
    Fulfilled(u64),
    /// The computation failed; the payload is a typed error code.
    Rejected(u64),
}

/// An owning handle to a native in-flight computation. Not copyable;
/// exactly one owner at a time.
pub struct OwnPromiseNode {
    state: PromiseState,
}

/// The node in state `s`, for contracts: every operation on a node pins
/// its result to a value of this shape.
pub closed spec fn spec_node_of(s: PromiseState) -> OwnPromiseNode {
    OwnPromiseNode { state: s }
}

/// The node built by `spec_node_of(s)` is in state `s`.
pub broadcast proof fn lemma_spec_node_of_state(s: PromiseState)
    ensures
        #[trigger] spec_node_of(s).spec_state() == s,
{
}

impl OwnPromiseNode {
    /// The resolution state, for contracts.
    pub closed spec fn spec_state(&self) -> PromiseState {
        self.state
    }

    /// A node whose computation is still in flight.
    pub fn new_pending() -> (n: OwnPromiseNode)
        ensures
            n == spec_node_of(PromiseState::Pending),
            n.spec_state() == PromiseState::Pending,
    {
        OwnPromiseNode { state: PromiseState::Pending }
    }

    /// A node whose computation already finished with `value`.
    pub fn new_fulfilled(value: u64) -> (n: OwnPromiseNode)
        ensures
            n == spec_node_of(PromiseState::Fulfilled(value)),
            n.spec_state() == PromiseState::Fulfilled(value),
    {
        OwnPromiseNode { state: PromiseState::Fulfilled(value) }
    }

    /// A node whose computation already failed with `error`.
    pub fn new_rejected(error: u64) -> (n: OwnPromiseNode)
        ensures
            n == spec_node_of(PromiseState::Rejected(error)),
            n.spec_state() == PromiseState::Rejected(error),
    {
        OwnPromiseNode { state: PromiseState::Rejected(error) }
    }

    /// The resolution state.
    pub fn state(&self) -> (s: PromiseState)
        ensures
            s == self.spec_state(),
    {
        self.state
    }

    /// Whether the computation is still in flight.
    pub fn is_pending(&self) -> (r: bool)
        ensures
            r == (self.spec_state() == PromiseState::Pending),
    {
        matches!(self.state, PromiseState::Pending)
    }

    /// Record that the computation finished with `value`. This is the
    /// event-loop side of the model: resolution arrives from outside.
    pub fn fulfill(&mut self, value: u64)
        requires
            old(self).spec_state() == PromiseState::Pending,
        ensures
            *final(self) == spec_node_of(PromiseState::Fulfilled(value)),
            final(self).spec_state() == PromiseState::Fulfilled(value),
    {
        self.state = PromiseState::Fulfilled(value);
    }

    /// Record that the computation failed with `error`.
    pub fn reject(&mut self, error: u64)
        requires
            old(self).spec_state() == PromiseState::Pending,
        ensures
            *final(self) == spec_node_of(PromiseState::Rejected(error)),
            final(self).spec_state() == PromiseState::Rejected(error),
    {
        self.state = PromiseState::Rejected(error);
    }

    /// Consume a resolved node, yielding its outcome. Ready signaling and
    /// value extraction are deliberately separate operations; this is the
    /// extraction.
    pub fn into_result(self) -> (r: Result<u64, u64>)
        requires
            self.spec_state() != PromiseState::Pending,
        ensures
            self.spec_state() matches PromiseState::Fulfilled(v) ==> r == Result::<u64, u64>::Ok(v),
            self.spec_state() matches PromiseState::Rejected(e) ==> r == Result::<u64, u64>::Err(e),
    {
        match self.state {
            PromiseState::Fulfilled(v) => Ok(v),
            PromiseState::Rejected(e) => Err(e),
            PromiseState::Pending => Err(0),
        }
    }
}

} // verus!

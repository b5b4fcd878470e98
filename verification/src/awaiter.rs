//! The lazy cross-runtime awaiter: a state holder that constructs its
//! native companion in place on first poll, wires the waker bridge up, and
//! exposes a ready/pending poll operation.
//!
//! The native companion object is modelled as data owned by the awaiter:
//! the promise node it embeds once materialized, and the native wake handle
//! it may have armed. Pinning and the companion's raw pointer into the
//! waker slot are replaced by plain ownership: the awaiter owns both the
//! companion and the slot and mediates every access, so the structural
//! drop-order invariant of the original aggregate holds by construction.

use vstd::prelude::*;

use crate::node::spec_node_of;
use crate::node::OwnPromiseNode;
use crate::node::PromiseState;
use crate::waker::spec_option_waker;
use crate::waker::KjWaker;
use crate::waker::OptionWaker;
use crate::waker::Waker;
use crate::waker::WakerRef;
use crate::ProtocolViolation;

verus! {

broadcast use crate::node::lemma_spec_node_of_state, crate::waker::lemma_spec_option_waker_contents;

/// The native companion awaiter: wraps the promise node consumed from the
/// lazy awaiter and remembers which native waker, if any, it has armed.
pub struct RustPromiseAwaiter {
    node: Option<OwnPromiseNode>,
    kj_waker: Option<KjWaker>,
}

/// The companion holding `node` with `kj_waker` armed, for contracts.
pub closed spec fn spec_companion_of(
    node: Option<OwnPromiseNode>,
    kj_waker: Option<KjWaker>,
) -> RustPromiseAwaiter {
    RustPromiseAwaiter { node, kj_waker }
}

impl RustPromiseAwaiter {
    /// The embedded promise node, if it has not been taken back out.
    pub closed spec fn spec_node(&self) -> Option<OwnPromiseNode> {
        self.node
    }

    /// The armed native wake handle, if any.
    pub closed spec fn spec_kj_waker(&self) -> Option<KjWaker> {
        self.kj_waker
    }

    /// Whether the companion still holds its promise node.
    pub fn has_node(&self) -> (r: bool)
        ensures
            r == (self.spec_node() is Some),
    {
        self.node.is_some()
    }

    /// The resolution state of the embedded node.
    pub fn node_state(&self) -> (s: PromiseState)
        requires
            self.spec_node() is Some,
        ensures
            Some(s) == spec_node_state(self.spec_node()),
    {
        match &self.node {
            Some(n) => n.state(),
            None => PromiseState::Pending,
        }
    }

    /// Extract the promise node back out of the companion, for re-use by
    /// the reverse adapter. Valid at most once.
    pub fn take_own_promise_node(&mut self) -> (n: OwnPromiseNode)
        requires
            old(self).spec_node() is Some,
        ensures
            Some(n) == old(self).spec_node(),
            *final(self) == spec_companion_of(None, old(self).spec_kj_waker()),
            final(self).spec_node() is None,
    {
        self.node.take().unwrap()
    }
}

/// The resolution state of an optional node, for contracts.
pub open spec fn spec_node_state(n: Option<OwnPromiseNode>) -> Option<PromiseState> {
    match n {
        Some(node) => Some(node.spec_state()),
        None => None,
    }
}

/// What a completed native promise asks the event loop to do with the wake
/// handle that was armed for it: nothing was armed, a managed handle must
/// be invoked, or a native handle must be invoked.
#[derive(Clone, Copy, PartialEq, Eq, Structural, Debug)]
pub enum WakeAction {
    /// No handle was armed; the next poll will observe readiness directly.
    NoWake,
    /// Invoke this managed wake handle, exactly once.
    WakeManaged(Waker),
    /// Invoke this native wake handle, exactly once.
    WakeNative(KjWaker),
}

/// What ran when an awaiter was dismantled. Dismantling consumes the
/// awaiter, so each destructor in the report can have run at most once,
/// and the report holds no wake handle: a discarded handle is dropped,
/// never invoked.
#[derive(Clone, Copy, PartialEq, Eq, Structural, Debug)]
pub struct TeardownReport {
    /// The companion's native destructor ran (materialized awaiters only).
    pub companion_destroyed: bool,
    /// The plain promise-node destructor ran (never-materialized awaiters).
    pub node_destructor_ran: bool,
    /// The companion detached a still-unresolved promise.
    pub promise_cancelled: bool,
    /// A stored wake handle was dropped without being invoked.
    pub waker_discarded: bool,
}

/// The lazy awaiter: holds the not-yet-consumed promise node until the
/// first poll, then the in-place companion; the waker slot lives in the
/// same aggregate as the companion, outliving it, exactly as the
/// drop-order invariant of the original aggregate demands.
pub struct PromiseAwaiter<Data> {
    node: Option<OwnPromiseNode>,
    pub(crate) data: Data,
    awaiter: Option<RustPromiseAwaiter>,
    option_waker: OptionWaker,
}

impl<Data> PromiseAwaiter<Data> {
    /// The promise node still waiting to be consumed by materialization.
    pub closed spec fn spec_pending_node(&self) -> Option<OwnPromiseNode> {
        self.node
    }

    /// The materialized companion, if any.
    pub closed spec fn spec_companion(&self) -> Option<RustPromiseAwaiter> {
        self.awaiter
    }

    /// The waker slot's contents.
    pub closed spec fn spec_waker(&self) -> Option<Waker> {
        self.option_waker.spec_waker()
    }

    /// The data carried alongside the awaiter.
    pub closed spec fn spec_data(&self) -> Data {
        self.data
    }

    /// Whether the companion has been constructed.
    pub open spec fn spec_materialized(&self) -> bool {
        self.spec_companion() is Some
    }

    /// Structural invariant: the promise node is consumed exactly when the
    /// companion is constructed.
    pub open spec fn wf(&self) -> bool {
        (self.spec_pending_node() is Some) <==> !self.spec_materialized()
    }

    /// The resolution state of the promise this awaiter drives, wherever
    /// the node currently lives. `None` only after the node was taken out.
    pub open spec fn spec_state(&self) -> Option<PromiseState> {
        if self.spec_materialized() {
            spec_node_state(self.spec_companion()->Some_0.spec_node())
        } else {
            spec_node_state(self.spec_pending_node())
        }
    }

    /// Whether a poll is legitimate: well-formed, and the node has not
    /// been taken out of the companion.
    pub open spec fn spec_pollable(&self) -> bool {
        self.wf() && self.spec_state() is Some
    }

    /// Wrap a promise node for awaiting. No native construction happens
    /// yet; the companion is built in place on first use.
    pub fn new(node: OwnPromiseNode, data: Data) -> (a: PromiseAwaiter<Data>)
        ensures
            a.wf(),
            !a.spec_materialized(),
            a.spec_pending_node() == Some(node),
            a.spec_data() == data,
            a.spec_waker() is None,
            a.spec_state() == Some(node.spec_state()),
    {
        PromiseAwaiter { node: Some(node), data, awaiter: None, option_waker: OptionWaker::empty() }
    }

    /// On the first call, consume the stored promise node and construct
    /// the companion in place; on every later call, leave the existing
    /// companion untouched.
    pub fn get_awaiter(&mut self)
        requires
            old(self).wf(),
        ensures
            *final(self) == spec_materialize(*old(self)),
            final(self).wf(),
            final(self).spec_materialized(),
            final(self).spec_state() == old(self).spec_state(),
            final(self).spec_waker() == old(self).spec_waker(),
            final(self).spec_data() == old(self).spec_data(),
    {
        if self.node.is_some() {
            let node = self.node.take().unwrap();
            self.awaiter = Some(RustPromiseAwaiter { node: Some(node), kj_waker: None });
        }
    }

    /// Poll the underlying promise: materialize the companion if needed,
    /// then either report readiness without touching the waker slot, or
    /// arm a wake handle and report pending. When the polling context
    /// already carries a native waker, it is armed directly and the
    /// managed slot is cleared, avoiding a double wrap.
    pub fn poll(&mut self, waker: &WakerRef, maybe_kj_waker: Option<KjWaker>) -> (ready: bool)
        requires
            old(self).spec_pollable(),
        ensures
            (*final(self), ready) == spec_poll(*old(self), waker.spec_handle(), maybe_kj_waker),
            ready == (old(self).spec_state() != Some(PromiseState::Pending)),
            final(self).spec_state() == old(self).spec_state(),
            final(self).spec_pollable(),
            final(self).spec_materialized(),
            final(self).spec_data() == old(self).spec_data(),
            ready ==> final(self).spec_waker() == old(self).spec_waker(),
            !ready && maybe_kj_waker is None ==> final(self).spec_waker() == Some(
                waker.spec_handle(),
            ),
            !ready && maybe_kj_waker is Some ==> final(self).spec_waker() is None,
            !ready ==> final(self).spec_companion()->Some_0.spec_kj_waker() == maybe_kj_waker,
    {
        self.get_awaiter();
        let mut aw = self.awaiter.take().unwrap();
        let state = match &aw.node {
            Some(n) => n.state(),
            None => PromiseState::Pending,
        };
        let ready = if matches!(state, PromiseState::Pending) {
            match maybe_kj_waker {
                Some(k) => {
                    self.option_waker.set_none();
                    aw.kj_waker = Some(k);
                },
                None => {
                    self.option_waker.set(waker);
                    aw.kj_waker = None;
                },
            }
            false
        } else {
            true
        };
        self.awaiter = Some(aw);
        ready
    }

    /// The event-loop side of the model: the underlying promise settled
    /// with `outcome`. The armed wake handle, if any, is consumed and
    /// handed back for invocation — a native handle if one was armed on
    /// the last poll, else the managed handle stored in the slot.
    pub fn on_promise_settled(&mut self, outcome: PromiseState) -> (act: WakeAction)
        requires
            old(self).spec_materialized(),
            old(self).spec_state() == Some(PromiseState::Pending),
            outcome != PromiseState::Pending,
        ensures
            (*final(self), act) == spec_settle(*old(self), outcome),
            final(self).spec_waker() is None,
            final(self).spec_state() == Some(outcome),
            final(self).spec_data() == old(self).spec_data(),
            old(self).wf() ==> final(self).spec_pollable(),
            old(self).spec_companion()->Some_0.spec_kj_waker() matches Some(k) ==> act
                == WakeAction::WakeNative(k),
            old(self).spec_companion()->Some_0.spec_kj_waker() is None && old(
                self,
            ).spec_waker() is Some ==> act == WakeAction::WakeManaged(
                old(self).spec_waker()->Some_0,
            ),
            old(self).spec_companion()->Some_0.spec_kj_waker() is None && old(
                self,
            ).spec_waker() is None ==> act == WakeAction::NoWake,
    {
        let mut aw = self.awaiter.take().unwrap();
        let mut node = aw.node.take().unwrap();
        match outcome {
            PromiseState::Fulfilled(v) => node.fulfill(v),
            PromiseState::Rejected(e) => node.reject(e),
            PromiseState::Pending => (),
        }
        aw.node = Some(node);
        let act = match aw.kj_waker.take() {
            Some(k) => {
                self.option_waker.set_none();
                WakeAction::WakeNative(k)
            },
            None => match self.option_waker.consume_and_wake() {
                Ok(w) => WakeAction::WakeManaged(w),
                Err(_) => WakeAction::NoWake,
            },
        };
        self.awaiter = Some(aw);
        act
    }

    /// Extract the promise node back out of the materialized companion,
    /// for re-use by the reverse adapter.
    pub fn take_promise_node(&mut self) -> (n: OwnPromiseNode)
        requires
            old(self).spec_materialized(),
            old(self).spec_state() is Some,
        ensures
            Some(n.spec_state()) == old(self).spec_state(),
            final(self).spec_materialized(),
            final(self).spec_state() is None,
            final(self).spec_waker() == old(self).spec_waker(),
            final(self).spec_data() == old(self).spec_data(),
    {
        let mut aw = self.awaiter.take().unwrap();
        let n = aw.take_own_promise_node();
        self.awaiter = Some(aw);
        n
    }

    /// Like `take_promise_node`, but reports the protocol violation as a
    /// typed error instead of presupposing a still-present node: taking
    /// the node before materialization, or a second time, is the
    /// double-consume case of the error taxonomy.
    pub fn try_take_promise_node(&mut self) -> (r: Result<OwnPromiseNode, ProtocolViolation>)
        ensures
            old(self).spec_materialized() && old(self).spec_state() is Some ==> {
                &&& r matches Ok(n) && Some(n.spec_state()) == old(self).spec_state()
                &&& final(self).spec_materialized()
                &&& final(self).spec_state() is None
            },
            !(old(self).spec_materialized() && old(self).spec_state() is Some) ==> {
                &&& r == Result::<OwnPromiseNode, ProtocolViolation>::Err(
                    ProtocolViolation::NodeAlreadyTaken,
                )
                &&& *final(self) == *old(self)
            },
            final(self).spec_waker() == old(self).spec_waker(),
            final(self).spec_data() == old(self).spec_data(),
    {
        let aw = match self.awaiter.take() {
            Some(aw) => aw,
            None => {
                return Err(ProtocolViolation::NodeAlreadyTaken);
            },
        };
        let mut aw = aw;
        let r = match aw.node.take() {
            Some(n) => Ok(n),
            None => Err(ProtocolViolation::NodeAlreadyTaken),
        };
        self.awaiter = Some(aw);
        r
    }

    /// Dismantle the awaiter, reporting which destructors ran. This stands
    /// for dropping the wrapping future: a materialized companion is torn
    /// down synchronously — cancelling the promise if it is still
    /// unresolved — while a never-materialized awaiter only lets the plain
    /// node destructor run; a stored wake handle is discarded, never
    /// invoked.
    pub fn dismantle(self) -> (r: TeardownReport)
        ensures
            r == spec_teardown(self),
    {
        let PromiseAwaiter { node, data: _, awaiter, option_waker: mut slot } = self;
        let waker_discarded = match slot.consume_and_wake() {
            Ok(_) => true,
            Err(_) => false,
        };
        match awaiter {
            Some(aw) => {
                let promise_cancelled = match &aw.node {
                    Some(n) => n.is_pending(),
                    None => false,
                };
                TeardownReport {
                    companion_destroyed: true,
                    node_destructor_ran: node.is_some(),
                    promise_cancelled,
                    waker_discarded,
                }
            },
            None => TeardownReport {
                companion_destroyed: false,
                node_destructor_ran: node.is_some(),
                promise_cancelled: false,
                waker_discarded,
            },
        }
    }
}

/// The materialization transition: consume the stored node into a fresh
/// companion, or leave an already-materialized awaiter unchanged.
pub closed spec fn spec_materialize<Data>(a: PromiseAwaiter<Data>) -> PromiseAwaiter<Data> {
    if a.spec_materialized() {
        a
    } else {
        PromiseAwaiter {
            node: None,
            awaiter: Some(spec_companion_of(a.spec_pending_node(), None)),
            ..a
        }
    }
}

/// The poll transition: materialize, then report ready, or arm a wake
/// handle and report pending.
pub closed spec fn spec_poll<Data>(
    a: PromiseAwaiter<Data>,
    w: Waker,
    kj: Option<KjWaker>,
) -> (PromiseAwaiter<Data>, bool) {
    let m = spec_materialize(a);
    let companion = m.spec_companion()->Some_0;
    if spec_node_state(companion.spec_node()) == Some(PromiseState::Pending) {
        match kj {
            Some(k) => (
                PromiseAwaiter {
                    awaiter: Some(spec_companion_of(companion.spec_node(), Some(k))),
                    option_waker: spec_option_waker(None),
                    ..m
                },
                false,
            ),
            None => (
                PromiseAwaiter {
                    awaiter: Some(spec_companion_of(companion.spec_node(), None)),
                    option_waker: spec_option_waker(Some(w)),
                    ..m
                },
                false,
            ),
        }
    } else {
        (m, true)
    }
}

/// The settlement transition: record the outcome in the embedded node and
/// consume whichever wake handle was armed.
pub closed spec fn spec_settle<Data>(
    a: PromiseAwaiter<Data>,
    outcome: PromiseState,
) -> (PromiseAwaiter<Data>, WakeAction) {
    let companion = a.spec_companion()->Some_0;
    let settled = PromiseAwaiter {
        awaiter: Some(spec_companion_of(Some(spec_node_of(outcome)), None)),
        option_waker: spec_option_waker(None),
        ..a
    };
    match companion.spec_kj_waker() {
        Some(k) => (settled, WakeAction::WakeNative(k)),
        None => match a.spec_waker() {
            Some(w) => (settled, WakeAction::WakeManaged(w)),
            None => (settled, WakeAction::NoWake),
        },
    }
}

/// The teardown transition described by `dismantle`.
pub open spec fn spec_teardown<Data>(a: PromiseAwaiter<Data>) -> TeardownReport {
    TeardownReport {
        companion_destroyed: a.spec_materialized(),
        node_destructor_ran: a.spec_pending_node() is Some,
        promise_cancelled: a.spec_materialized() && spec_node_state(
            a.spec_companion()->Some_0.spec_node(),
        ) == Some(PromiseState::Pending),
        waker_discarded: a.spec_waker() is Some,
    }
}

/// An awaiter over an already-resolved promise that has never stored a
/// wake handle. This is the state a freshly constructed awaiter over a
/// fulfilled node is in, and — as the law below shows — polling never
/// leaves it.
pub open spec fn spec_ready_and_quiet<Data>(a: PromiseAwaiter<Data>, v: u64) -> bool {
    &&& a.wf()
    &&& a.spec_state() == Some(PromiseState::Fulfilled(v))
    &&& a.spec_waker() is None
}

/// Law: polling an awaiter over an already-resolved promise reports ready
/// with the value intact and stores no wake handle — and leaves the
/// awaiter in the same quiet state, so any sequence of polls does the
/// same.
pub proof fn law_ready_promise_polls_ready<Data>(
    a: PromiseAwaiter<Data>,
    w: Waker,
    kj: Option<KjWaker>,
    v: u64,
)
    requires
        spec_ready_and_quiet(a, v),
    ensures
        spec_poll(a, w, kj).1,
        spec_ready_and_quiet(spec_poll(a, w, kj).0, v),
{
}

/// Law: every poll before resolution reports pending, leaves the promise
/// pending, and stores exactly the handle passed to that poll — so a
/// sequence of polls stores one handle at a time, the last one passed.
pub proof fn law_pending_promise_polls_pending<Data>(a: PromiseAwaiter<Data>, w: Waker)
    requires
        a.wf(),
        a.spec_state() == Some(PromiseState::Pending),
    ensures
        !spec_poll(a, w, None).1,
        spec_poll(a, w, None).0.wf(),
        spec_poll(a, w, None).0.spec_state() == Some(PromiseState::Pending),
        spec_poll(a, w, None).0.spec_waker() == Some(w),
{
}

/// Law: on an awaiter over a still-pending promise, a poll reports
/// pending and stores the wake handle; settlement hands exactly that
/// handle back for invocation — exactly once, since the slot is left
/// empty — and the next poll reports ready with the settled value.
pub proof fn law_pending_poll_wake_then_ready<Data>(
    a: PromiseAwaiter<Data>,
    w: Waker,
    w2: Waker,
    v: u64,
)
    requires
        a.wf(),
        a.spec_state() == Some(PromiseState::Pending),
    ensures
        ({
            let (a1, ready1) = spec_poll(a, w, None);
            let (a2, act) = spec_settle(a1, PromiseState::Fulfilled(v));
            let (a3, ready3) = spec_poll(a2, w2, None);
            &&& !ready1
            &&& a1.spec_waker() == Some(w)
            &&& act == WakeAction::WakeManaged(w)
            &&& a2.spec_waker() is None
            &&& ready3
            &&& a3.spec_state() == Some(PromiseState::Fulfilled(v))
            &&& a3.spec_waker() is None
        }),
{
}

/// Law: materialization is idempotent — forcing the companion a second
/// time yields the awaiter unchanged, companion included.
pub proof fn law_materialize_idempotent<Data>(a: PromiseAwaiter<Data>)
    ensures
        spec_materialize(spec_materialize(a)) == spec_materialize(a),
{
}

/// Law: dismantling a never-materialized awaiter runs no companion
/// construction or destruction shim at all — only the plain promise-node
/// destructor runs.
pub proof fn law_unmaterialized_teardown_is_plain<Data>(a: PromiseAwaiter<Data>)
    requires
        a.wf(),
        !a.spec_materialized(),
    ensures
        !spec_teardown(a).companion_destroyed,
        !spec_teardown(a).promise_cancelled,
        spec_teardown(a).node_destructor_ran,
{
}

/// Law: dismantling a materialized awaiter whose promise is still
/// unresolved tears the companion down — cancelling the promise — and
/// delivers no further wake: a handle still in the slot is discarded, and
/// the report carries no handle that could be invoked later.
pub proof fn law_materialized_teardown_cancels<Data>(a: PromiseAwaiter<Data>)
    requires
        a.wf(),
        a.spec_materialized(),
        a.spec_state() == Some(PromiseState::Pending),
    ensures
        spec_teardown(a).companion_destroyed,
        spec_teardown(a).promise_cancelled,
        !spec_teardown(a).node_destructor_ran,
        spec_teardown(a).waker_discarded == (a.spec_waker() is Some),
{
}

} // verus!



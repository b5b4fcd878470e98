use kj_rs::FuturePollStatus;
use kj_rs::KjPromiseNodeImpl;
use kj_rs::KjWaker;
use kj_rs::OptionWaker;
use kj_rs::OwnPromiseNode;
use kj_rs::PromiseAwaiter;
use kj_rs::PromiseState;
use kj_rs::ProtocolViolation;
use kj_rs::WakeAction;
use kj_rs::Waker;
use kj_rs::WakerRef;

#[test]
fn pending_promise_resolves_with_seven() {
    // An awaiter over a promise that resolves with 7 after one pending
    // poll: first poll is pending without a panic, the stored wake
    // handle is delivered on resolution, the next poll is ready, and the
    // extracted result is 7.
    let node = OwnPromiseNode::new_pending();
    let mut awaiter = PromiseAwaiter::new(node, ());
    let handle = Waker { task: 11 };
    let ready = awaiter.poll(&WakerRef::new(&handle), None);
    assert!(!ready);
    let action = awaiter.on_promise_settled(PromiseState::Fulfilled(7));
    assert_eq!(action, WakeAction::WakeManaged(Waker { task: 11 }));
    let ready = awaiter.poll(&WakerRef::new(&handle), None);
    assert!(ready);
    let node = awaiter.take_promise_node();
    assert_eq!(node.into_result(), Ok(7));
}

#[test]
fn ready_promise_polls_ready_without_storing_waker() {
    let node = OwnPromiseNode::new_fulfilled(42);
    let mut awaiter = PromiseAwaiter::new(node, ());
    let handle = Waker { task: 1 };
    assert!(awaiter.poll(&WakerRef::new(&handle), None));
    assert!(awaiter.poll(&WakerRef::new(&handle), None));
    let report = awaiter.dismantle();
    // No wake handle was ever stored, so none was discarded.
    assert!(!report.waker_discarded);
    assert!(report.companion_destroyed);
    assert!(!report.promise_cancelled);
}

#[test]
fn consume_and_wake_on_empty_slot_is_a_protocol_violation() {
    let mut slot = OptionWaker::empty();
    assert_eq!(
        slot.consume_and_wake(),
        Err(ProtocolViolation::EmptyWakerSlot)
    );
}

#[test]
fn waker_slot_set_wake_and_clear() {
    let mut slot = OptionWaker::empty();
    let first = Waker { task: 1 };
    let second = Waker { task: 2 };
    slot.set(&WakerRef::new(&first));
    // Storing again refreshes the slot in place.
    slot.set(&WakerRef::new(&second));
    assert_eq!(slot.wake_mut(), second);
    // The wake consumed the handle.
    assert_eq!(
        slot.consume_and_wake(),
        Err(ProtocolViolation::EmptyWakerSlot)
    );
    slot.set(&WakerRef::new(&first));
    slot.set_none();
    assert_eq!(
        slot.consume_and_wake(),
        Err(ProtocolViolation::EmptyWakerSlot)
    );
}

#[test]
fn unmaterialized_teardown_runs_no_companion_shim() {
    let node = OwnPromiseNode::new_pending();
    let awaiter = PromiseAwaiter::new(node, ());
    let report = awaiter.dismantle();
    assert!(!report.companion_destroyed);
    assert!(report.node_destructor_ran);
    assert!(!report.promise_cancelled);
    assert!(!report.waker_discarded);
}

#[test]
fn materialized_unresolved_teardown_cancels_without_wake() {
    let node = OwnPromiseNode::new_pending();
    let mut awaiter = PromiseAwaiter::new(node, ());
    let handle = Waker { task: 9 };
    assert!(!awaiter.poll(&WakerRef::new(&handle), None));
    let report = awaiter.dismantle();
    assert!(report.companion_destroyed);
    assert!(!report.node_destructor_ran);
    assert!(report.promise_cancelled);
    // The stored handle was discarded, not invoked.
    assert!(report.waker_discarded);
}

#[test]
fn materialization_is_idempotent() {
    let node = OwnPromiseNode::new_pending();
    let mut awaiter = PromiseAwaiter::new(node, 5u8);
    awaiter.get_awaiter();
    awaiter.get_awaiter();
    let handle = Waker { task: 3 };
    assert!(!awaiter.poll(&WakerRef::new(&handle), None));
    let action = awaiter.on_promise_settled(PromiseState::Fulfilled(1));
    assert_eq!(action, WakeAction::WakeManaged(handle));
}

#[test]
fn native_waker_path_avoids_double_wrap() {
    let node = OwnPromiseNode::new_pending();
    let mut awaiter = PromiseAwaiter::new(node, ());
    let handle = Waker { task: 4 };
    let kj = KjWaker { id: 77 };
    assert!(!awaiter.poll(&WakerRef::new(&handle), Some(kj)));
    let action = awaiter.on_promise_settled(PromiseState::Fulfilled(2));
    assert_eq!(action, WakeAction::WakeNative(KjWaker { id: 77 }));
}

#[test]
fn rejected_promise_surfaces_typed_error() {
    let node = OwnPromiseNode::new_pending();
    let mut awaiter = PromiseAwaiter::new(node, ());
    let handle = Waker { task: 6 };
    assert!(!awaiter.poll(&WakerRef::new(&handle), None));
    let action = awaiter.on_promise_settled(PromiseState::Rejected(13));
    assert_eq!(action, WakeAction::WakeManaged(handle));
    assert!(awaiter.poll(&WakerRef::new(&handle), None));
    let node = awaiter.take_promise_node();
    assert_eq!(node.into_result(), Err(13));
}

#[test]
fn resolution_without_any_poll_wakes_nobody() {
    let node = OwnPromiseNode::new_pending();
    let mut awaiter = PromiseAwaiter::new(node, ());
    awaiter.get_awaiter();
    let action = awaiter.on_promise_settled(PromiseState::Fulfilled(3));
    assert_eq!(action, WakeAction::NoWake);
}

#[test]
fn promise_node_state_transitions() {
    let mut node = OwnPromiseNode::new_pending();
    assert!(node.is_pending());
    assert_eq!(node.state(), PromiseState::Pending);
    node.fulfill(21);
    assert_eq!(node.state(), PromiseState::Fulfilled(21));
    let mut other = OwnPromiseNode::new_pending();
    other.reject(4);
    assert_eq!(other.state(), PromiseState::Rejected(4));
    assert_eq!(OwnPromiseNode::new_rejected(9).into_result(), Err(9));
}

#[test]
fn reverse_adapter_completes_and_signals() {
    let mut adapter = KjPromiseNodeImpl::new();
    let kj = KjWaker { id: 5 };
    assert_eq!(
        adapter.poll_hook(FuturePollStatus::Pending, kj),
        FuturePollStatus::Pending
    );
    assert_eq!(
        adapter.poll_hook(FuturePollStatus::Complete(8), KjWaker { id: 6 }),
        FuturePollStatus::Complete(8)
    );
    assert_eq!(adapter.take_result(), FuturePollStatus::Complete(8));
}

#[test]
fn reverse_adapter_error_and_cancel() {
    let mut adapter = KjPromiseNodeImpl::new();
    assert_eq!(
        adapter.poll_hook(FuturePollStatus::Error(2), KjWaker { id: 1 }),
        FuturePollStatus::Error(2)
    );
    assert_eq!(adapter.take_result(), FuturePollStatus::Error(2));

    let mut pending = KjPromiseNodeImpl::new();
    assert_eq!(
        pending.poll_hook(FuturePollStatus::Pending, KjWaker { id: 3 }),
        FuturePollStatus::Pending
    );
    let report = pending.cancel();
    // Destroyed before completion: the boxed future is dropped and the
    // armed waker discarded, never invoked.
    assert!(report.future_dropped);
    assert!(report.waker_discarded);
}

#[test]
fn taking_the_node_twice_is_a_protocol_violation() {
    let node = OwnPromiseNode::new_fulfilled(1);
    let mut awaiter = PromiseAwaiter::new(node, ());
    awaiter.get_awaiter();
    let first = awaiter.try_take_promise_node();
    assert!(first.is_ok());
    assert_eq!(
        awaiter.try_take_promise_node().map(|_| ()),
        Err(ProtocolViolation::NodeAlreadyTaken)
    );
}

//! A verified model of a cross-runtime awaiter bridge: the layer that lets a
//! poll-based future suspend on an event-loop promise owned by a native
//! library, and the other way round, without blocking and while surviving
//! cancellation.
//!
//! The native side (promises, companion awaiter objects, heap objects with
//! their disposal hooks) is modelled as plain data, so that the bridge's
//! state machines — lazy materialization, waker hand-off, tear-down order,
//! reference counting — can be stated and proved.

use vstd::prelude::*;

mod adapters;
mod awaiter;
mod cmd;
mod future;
mod generics;
mod tokens;
mod mock;
mod names;
mod node;
mod own;
mod pump;
mod stream;
mod types;
mod waker;

pub use adapters::RustAsyncInputStream;
pub use adapters::RustAsyncIoStream;
pub use adapters::RustAsyncOutputStream;
pub use adapters::compute_stream_hash_iostream_ffi;
pub use adapters::compute_stream_hash_rust_ffi;
pub use adapters::create_rust_mock_io_stream;
pub use adapters::create_rust_mock_output_stream;
pub use adapters::create_rust_mock_output_stream_with_error;
pub use adapters::mock_input_stream;
pub use adapters::mock_input_stream_no_size;
pub use adapters::mock_input_stream_with_error;
pub use awaiter::PromiseAwaiter;
pub use awaiter::RustPromiseAwaiter;
pub use awaiter::TeardownReport;
pub use awaiter::WakeAction;
pub use cmd::Kind;
pub use cmd::Output;
pub use cmd::OutputPlan;
pub use cmd::classify_output;
pub use cmd::classify_outputs;
pub use cmd::ends_with;
pub use future::CancelReport;
pub use future::FuturePollStatus;
pub use future::KjPromiseNodeImpl;
pub use generics::ExplicitImpl;
pub use generics::ImplGenerics;
pub use generics::Lifetimes;
pub use generics::TyGenerics;
pub use generics::UnderscoreLifetimes;
pub use generics::split_for_impl;
pub use generics::to_underscore_lifetimes;
pub use mock::MockInputStream;
pub use mock::MockIoStream;
pub use mock::MockOutputStream;
pub use names::ForeignName;
pub use names::NameError;
pub use names::Pair;
pub use names::Symbol;
pub use names::parsed_ident_any;
pub use node::OwnPromiseNode;
pub use node::PromiseState;
pub use own::NativeHeap;
pub use own::NativeObject;
pub use own::Own;
pub use own::Rc;
pub use pump::FNV_OFFSET_BASIS;
pub use pump::FNV_PRIME;
pub use pump::compute_stream_hash;
pub use pump::generate_prng;
pub use pump::spec_fnv1a;
pub use pump::spec_prng_bytes;
pub use pump::unoptimized_pump_to;
pub use stream::AncillaryMessage;
pub use stream::AsyncInputStream;
pub use stream::AsyncIoStream;
pub use stream::AsyncOutputStream;
pub use stream::StreamError;
pub use tokens::Receiver;
pub use tokens::ReceiverType;
pub use tokens::ReceiverTypeSelf;
pub use types::Atom;
pub use types::ImplKey;
pub use types::NamedImplKey;
pub use types::NamedType;
pub use types::StructDef;
pub use types::Type;
pub use types::Types;
pub use types::atom_of;
pub use waker::KjWaker;
pub use waker::OptionWaker;
pub use waker::Waker;
pub use waker::WakerRef;

verus! {

/// A protocol violation: a bug in the bridge or in its caller, never a
/// recoverable runtime condition.
#[derive(Clone, Copy, PartialEq, Eq, Structural, Debug)]
pub enum ProtocolViolation {
    /// A wake was requested while no wake handle was stored in the slot.
    EmptyWakerSlot,
    /// A promise node was taken from a companion that no longer holds one.
    NodeAlreadyTaken,
    /// A null handle was dereferenced.
    NullHandle,
}

} // verus!

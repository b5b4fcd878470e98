//! Smart handles for native heap objects: exclusive ownership with a
//! native disposal hook, and a shared variant layered on a native
//! reference count.
//!
//! The native heap is modelled explicitly, so that disposal can be stated:
//! each cell carries the value the handle dereferences to, the reference
//! count that the native side maintains atomically, and whether the
//! disposal hook has run. The heap invariant says the hook runs exactly
//! when the count reaches zero — so it fires exactly once per object, and
//! never on a cell that a live handle still reaches.

use vstd::prelude::*;

use crate::ProtocolViolation;

verus! {

/// One cell of the native heap: the object a handle points at.
#[derive(Clone, Copy, PartialEq, Eq, Structural, Debug)]
pub struct NativeObject {
    /// How many owning handles reach this object.
    pub refcount: u64,
    /// The object's payload, as read through a handle.
    pub value: u64,
    /// Whether the native disposal hook has run for this object.
    pub disposed: bool,
}

/// The native heap: every object that handles of this model can own.
pub struct NativeHeap {
    objects: Vec<NativeObject>,
}

/// An owning, move-only handle to a native heap object. The common
/// construction paths guarantee a non-null handle; a null one can only be
/// made deliberately, and dereferencing it fails fast.
pub struct Own {
    addr: usize,
}

/// A shared owning handle: a handle plus a claim on the object's native
/// reference count. The count lives native-side, in the heap cell, never
/// in a managed-side counter that could disagree with it.
pub struct Rc {
    pub(crate) own: Own,
}

impl NativeHeap {
    /// The heap's cells, for contracts.
    pub closed spec fn spec_objects(&self) -> Seq<NativeObject> {
        self.objects@
    }

    /// Heap invariant: the disposal hook has run for a cell exactly when
    /// no owning handle is left.
    pub open spec fn wf(&self) -> bool {
        forall|i: int|
            0 <= i < self.spec_objects().len() ==> ((#[trigger] self.spec_objects()[i]).refcount
                == 0 <==> self.spec_objects()[i].disposed)
    }

    /// An empty native heap.
    pub fn new() -> (h: NativeHeap)
        ensures
            h.wf(),
            h.spec_objects().len() == 0,
    {
        NativeHeap { objects: Vec::new() }
    }

    /// Allocate an object holding `value` and hand back the one owning
    /// handle to it, never null.
    pub fn heap(&mut self, value: u64) -> (o: Own)
        requires
            old(self).wf(),
            old(self).spec_objects().len() < usize::MAX,
        ensures
            final(self).wf(),
            !o.spec_is_null(),
            o.spec_index() == old(self).spec_objects().len(),
            o.valid(*final(self)),
            final(self).spec_objects() == old(self).spec_objects().push(
                NativeObject { refcount: 1, value, disposed: false },
            ),
    {
        let addr = self.objects.len() + 1;
        self.objects.push(NativeObject { refcount: 1, value, disposed: false });
        Own { addr }
    }

    /// Increment the object's native reference count and return a second
    /// handle aliasing the same object.
    pub fn add_ref(&mut self, o: &Own) -> (o2: Own)
        requires
            old(self).wf(),
            o.valid(*old(self)),
            old(self).spec_objects()[o.spec_index()].refcount < u64::MAX,
        ensures
            final(self).wf(),
            o2.spec_addr() == o.spec_addr(),
            o2.valid(*final(self)),
            o.valid(*final(self)),
            final(self).spec_objects() == old(self).spec_objects().update(
                o.spec_index(),
                NativeObject {
                    refcount: (old(self).spec_objects()[o.spec_index()].refcount + 1) as u64,
                    ..old(self).spec_objects()[o.spec_index()]
                },
            ),
    {
        let i = o.addr - 1;
        let mut cell = self.objects[i];
        cell.refcount = cell.refcount + 1;
        self.objects[i] = cell;
        Own { addr: o.addr }
    }

    /// Release an owning handle: decrement the object's reference count,
    /// and when it reaches zero run the native disposal hook — exactly
    /// once per object, which the heap invariant keeps. Consuming the
    /// handle is what rules any double-drop path out.
    pub fn release(&mut self, o: Own) -> (disposed: bool)
        requires
            old(self).wf(),
            o.valid(*old(self)),
        ensures
            final(self).wf(),
            disposed == (old(self).spec_objects()[o.spec_index()].refcount == 1),
            final(self).spec_objects() == old(self).spec_objects().update(
                o.spec_index(),
                NativeObject {
                    refcount: (old(self).spec_objects()[o.spec_index()].refcount - 1) as u64,
                    disposed: old(self).spec_objects()[o.spec_index()].refcount == 1,
                    ..old(self).spec_objects()[o.spec_index()]
                },
            ),
    {
        let i = o.addr - 1;
        let mut cell = self.objects[i];
        cell.refcount = cell.refcount - 1;
        let disposed = cell.refcount == 0;
        cell.disposed = disposed;
        self.objects[i] = cell;
        disposed
    }
}

impl Own {
    /// The handle's raw address; zero stands for null.
    pub closed spec fn spec_addr(&self) -> usize {
        self.addr
    }

    /// Whether this is the null handle.
    pub open spec fn spec_is_null(&self) -> bool {
        self.spec_addr() == 0
    }

    /// The index of the object this handle reaches.
    pub open spec fn spec_index(&self) -> int {
        self.spec_addr() - 1
    }

    /// A live handle: non-null, within the heap, and counted by the
    /// object it reaches.
    pub open spec fn valid(&self, heap: NativeHeap) -> bool {
        &&& !self.spec_is_null()
        &&& self.spec_index() < heap.spec_objects().len()
        &&& heap.spec_objects()[self.spec_index()].refcount > 0
    }

    /// The null handle. Only abnormal construction paths produce it; all
    /// allocation paths guarantee non-null.
    pub fn null() -> (o: Own)
        ensures
            o.spec_is_null(),
    {
        Own { addr: 0 }
    }

    /// Whether this is the null handle.
    pub fn is_null(&self) -> (r: bool)
        ensures
            r == self.spec_is_null(),
    {
        self.addr == 0
    }

    /// Read the owned object. The precondition plays the part of the
    /// fail-fast null check: verified callers can never reach the panic.
    pub fn value(&self, heap: &NativeHeap) -> (v: u64)
        requires
            self.valid(*heap),
        ensures
            v == heap.spec_objects()[self.spec_index()].value,
    {
        heap.objects[self.addr - 1].value
    }

    /// Read the owned object, failing fast on a null handle instead of
    /// dereferencing it.
    pub fn try_value(&self, heap: &NativeHeap) -> (r: Result<u64, ProtocolViolation>)
        requires
            self.spec_is_null() || self.valid(*heap),
        ensures
            self.spec_is_null() ==> r == Result::<u64, ProtocolViolation>::Err(
                ProtocolViolation::NullHandle,
            ),
            !self.spec_is_null() ==> r == Result::<u64, ProtocolViolation>::Ok(
                heap.spec_objects()[self.spec_index()].value,
            ),
    {
        if self.addr == 0 {
            Err(ProtocolViolation::NullHandle)
        } else {
            Ok(heap.objects[self.addr - 1].value)
        }
    }

    /// Write the owned object through the handle.
    pub fn set_value(&self, heap: &mut NativeHeap, v: u64)
        requires
            self.valid(*old(heap)),
            old(heap).wf(),
        ensures
            final(heap).wf(),
            self.valid(*final(heap)),
            final(heap).spec_objects() == old(heap).spec_objects().update(
                self.spec_index(),
                NativeObject { value: v, ..old(heap).spec_objects()[self.spec_index()] },
            ),
    {
        let i = self.addr - 1;
        let mut cell = heap.objects[i];
        cell.value = v;
        heap.objects[i] = cell;
    }
}

impl Rc {
    /// The underlying owning handle, for contracts.
    pub closed spec fn spec_own(&self) -> Own {
        self.own
    }

    /// Whether the shared handle is live on `heap`.
    pub open spec fn valid(&self, heap: NativeHeap) -> bool {
        self.spec_own().valid(heap)
    }

    /// Layer shared ownership over an owning handle: the handle's claim
    /// on the native reference count becomes this `Rc`'s claim.
    pub fn from_own(own: Own) -> (rc: Rc)
        ensures
            rc.spec_own() == own,
    {
        Rc { own }
    }

    /// Surrender the shared handle's claim as a plain owning handle.
    pub fn to_own(self) -> (o: Own)
        ensures
            o == self.spec_own(),
    {
        self.own
    }

    /// Whether the object is reached by more than one handle.
    pub fn is_shared(&self, heap: &NativeHeap) -> (r: bool)
        requires
            self.valid(*heap),
        ensures
            r == (heap.spec_objects()[self.spec_own().spec_index()].refcount > 1),
    {
        heap.objects[self.own.addr - 1].refcount > 1
    }

    /// Read the shared object.
    pub fn value(&self, heap: &NativeHeap) -> (v: u64)
        requires
            self.valid(*heap),
        ensures
            v == heap.spec_objects()[self.spec_own().spec_index()].value,
    {
        self.own.value(heap)
    }

    /// A second shared handle to the same object, backed by an increment
    /// of the native reference count.
    pub fn add_ref(&self, heap: &mut NativeHeap) -> (rc: Rc)
        requires
            old(heap).wf(),
            self.valid(*old(heap)),
            old(heap).spec_objects()[self.spec_own().spec_index()].refcount < u64::MAX,
        ensures
            final(heap).wf(),
            rc.spec_own().spec_addr() == self.spec_own().spec_addr(),
            rc.valid(*final(heap)),
            self.valid(*final(heap)),
            final(heap).spec_objects() == old(heap).spec_objects().update(
                self.spec_own().spec_index(),
                NativeObject {
                    refcount: (old(heap).spec_objects()[self.spec_own().spec_index()].refcount
                        + 1) as u64,
                    ..old(heap).spec_objects()[self.spec_own().spec_index()]
                },
            ),
    {
        let own = heap.add_ref(&self.own);
        Rc { own }
    }

    /// Release the shared handle's claim; the disposal hook fires exactly
    /// when this was the last one.
    pub fn release(self, heap: &mut NativeHeap) -> (disposed: bool)
        requires
            old(heap).wf(),
            self.valid(*old(heap)),
        ensures
            final(heap).wf(),
            disposed == (old(heap).spec_objects()[self.spec_own().spec_index()].refcount == 1),
            final(heap).spec_objects() == old(heap).spec_objects().update(
                self.spec_own().spec_index(),
                NativeObject {
                    refcount: (old(heap).spec_objects()[self.spec_own().spec_index()].refcount
                        - 1) as u64,
                    disposed: old(heap).spec_objects()[self.spec_own().spec_index()].refcount
                        == 1,
                    ..old(heap).spec_objects()[self.spec_own().spec_index()]
                },
            ),
    {
        heap.release(self.own)
    }
}

/// Law: two handles sharing one object through `add_ref` dispose it
/// exactly once — releasing the first keeps the object alive, releasing
/// the second fires the hook, and a handle to a disposed object can never
/// satisfy `release`'s precondition again.
pub proof fn law_shared_disposal_fires_once(heap: NativeHeap, o: NativeObject, i: int)
    requires
        heap.wf(),
        0 <= i < heap.spec_objects().len(),
        heap.spec_objects()[i] == o,
        o.refcount == 2,
    ensures
        ({
            // Releasing one of the two claims leaves the object alive.
            let once = o.refcount == 1;
            let after_one = NativeObject { refcount: (o.refcount - 1) as u64, disposed: once, ..o };
            // Releasing the remaining claim disposes it, once.
            let twice = after_one.refcount == 1;
            let after_two = NativeObject {
                refcount: (after_one.refcount - 1) as u64,
                disposed: twice,
                ..after_one
            };
            &&& !once
            &&& !after_one.disposed
            &&& twice
            &&& after_two.disposed
            &&& after_two.refcount == 0
        }),
{
}

} // verus!


//! A bounded recycling pool of queue structures.
//!
//! The pool wraps a lock-free bounded queue that serves as a free list of
//! pre-built structures. The queue itself is constructed and pre-filled
//! exactly once, on the first call, guarded by the crate's `OnceLock`.
//!
//! Policy for recycled instances: `deallocate` resets each structure before
//! queuing it, so `allocate` always yields a canonical fresh-equivalent
//! instance, whether it came from the pool or from fallback construction.

use crate::oncelock::OnceLock;
use crate::QueueStructure;
use crossbeam_queue::ArrayQueue;
use vstd::multiset::Multiset;
use vstd::prelude::*;

verus! {

broadcast use vstd::multiset::group_multiset_axioms, vstd::multiset::group_multiset_properties;

/// How many structures the process-wide pool retains at most.
pub const QUEUE_POOL_CAPACITY: usize = 128;

#[verifier::external_type_specification]
#[verifier::external_body]
#[verifier::reject_recursive_types(T)]
pub struct ExArrayQueue<T>(ArrayQueue<T>);

/// What the free-list queue holds: the views of its structures, as a bag,
/// since the pool gives no ordering guarantee.
pub uninterp spec fn array_queue_contents(q: ArrayQueue<Box<QueueStructure>>) -> Multiset<Seq<u64>>;

/// The fixed capacity the free-list queue was created with.
pub uninterp spec fn array_queue_capacity(q: ArrayQueue<Box<QueueStructure>>) -> nat;

/// Relies on `crossbeam_queue::ArrayQueue::new`: creates an empty queue of the
/// given capacity; panics when the capacity is zero or too large to stamp.
#[verifier::external_body]
fn queue_new(cap: usize) -> (q: ArrayQueue<Box<QueueStructure>>)
    requires
        1 <= cap < usize::MAX / 2,
    ensures
        array_queue_capacity(q) == cap as nat,
        array_queue_contents(q) == Multiset::<Seq<u64>>::empty(),
{
    ArrayQueue::new(cap)
}

/// Relies on `crossbeam_queue::ArrayQueue::push`: appends the element when the
/// queue is not full, and otherwise hands it back as the error.
#[verifier::external_body]
fn queue_push(q: &mut ArrayQueue<Box<QueueStructure>>, x: Box<QueueStructure>) -> (r: Result<
    (),
    Box<QueueStructure>,
>)
    ensures
        array_queue_capacity(*final(q)) == array_queue_capacity(*old(q)),
        array_queue_contents(*old(q)).len() < array_queue_capacity(*old(q)) ==> r is Ok
            && array_queue_contents(*final(q)) == array_queue_contents(*old(q)).insert(x@),
        array_queue_contents(*old(q)).len() >= array_queue_capacity(*old(q)) ==> array_queue_contents(*final(q)) == array_queue_contents(*old(q)) && (r matches Err(y) && y@ == x@),
{
    q.push(x)
}

/// Relies on `crossbeam_queue::ArrayQueue::pop`: removes and returns one
/// element, or `None` when the queue is empty.
#[verifier::external_body]
fn queue_pop(q: &mut ArrayQueue<Box<QueueStructure>>) -> (r: Option<Box<QueueStructure>>)
    ensures
        array_queue_capacity(*final(q)) == array_queue_capacity(*old(q)),
        array_queue_contents(*old(q)).len() == 0 ==> r is None && array_queue_contents(*final(q))
            == array_queue_contents(*old(q)),
        array_queue_contents(*old(q)).len() > 0 ==> (r matches Some(x)
            && array_queue_contents(*old(q)).contains(x@) && array_queue_contents(*final(q))
            == array_queue_contents(*old(q)).remove(x@)),
{
    q.pop()
}

/// Relies on `crossbeam_queue::ArrayQueue::len`: the number of elements in
/// the queue.
#[verifier::external_body]
fn queue_len(q: &ArrayQueue<Box<QueueStructure>>) -> (r: usize)
    ensures
        r as nat == array_queue_contents(*q).len(),
{
    q.len()
}

/// A bounded pool of recyclable queue structures. The underlying free-list
/// queue is built and pre-filled exactly once, on the first operation,
/// through the crate's `OnceLock`.
pub struct PoolAllocator {
    capacity: usize,
    cell: OnceLock<ArrayQueue<Box<QueueStructure>>>,
}

impl PoolAllocator {
    /// The pool's fixed capacity: the most structures it ever retains.
    pub closed spec fn spec_capacity(self) -> nat {
        self.capacity as nat
    }

    /// Whether the free-list queue has been built yet.
    pub closed spec fn is_ready(self) -> bool {
        self.cell.spec_get() is Some
    }

    /// The views of the structures the pool currently retains; empty while
    /// the free-list queue is not built yet.
    pub closed spec fn resident(self) -> Multiset<Seq<u64>> {
        match self.cell.spec_get() {
            Some(q) => array_queue_contents(q),
            None => Multiset::<Seq<u64>>::empty(),
        }
    }

    /// Well-formedness: the capacity is in the range the free-list queue
    /// accepts, the pool never retains more structures than its capacity,
    /// and every retained structure is canonical.
    pub closed spec fn wf(self) -> bool {
        &&& 1 <= self.capacity < usize::MAX / 2
        &&& (self.cell.spec_get() matches Some(q) ==> {
            &&& array_queue_capacity(q) == self.capacity as nat
            &&& array_queue_contents(q).len() <= self.capacity as nat
            &&& (forall|s: Seq<u64>|
                array_queue_contents(q).count(s) > 0 ==> s == Seq::<u64>::empty())
        })
    }

    /// A pool of the process-wide default capacity. The free-list queue is
    /// not built until the first operation.
    pub fn new() -> (r: Self)
        ensures
            r.wf(),
            !r.is_ready(),
            r.spec_capacity() == QUEUE_POOL_CAPACITY as nat,
    {
        Self::with_capacity(QUEUE_POOL_CAPACITY)
    }

    /// A pool that retains at most `capacity` structures.
    pub fn with_capacity(capacity: usize) -> (r: Self)
        requires
            1 <= capacity < usize::MAX / 2,
        ensures
            r.wf(),
            !r.is_ready(),
            r.spec_capacity() == capacity as nat,
    {
        PoolAllocator { capacity, cell: OnceLock::new() }
    }

    /// The most structures the pool ever retains.
    pub fn capacity(&self) -> (r: usize)
        ensures
            r as nat == self.spec_capacity(),
    {
        self.capacity
    }

    /// How many structures the pool currently retains.
    pub fn len(&self) -> (r: usize)
        ensures
            r as nat == self.resident().len(),
    {
        match self.cell.get() {
            Some(q) => queue_len(q),
            None => 0,
        }
    }

    /// Builds and pre-fills the free-list queue if that has not happened
    /// yet; at most one call over the pool's lifetime ever constructs it.
    fn ensure_ready(&mut self)
        requires
            old(self).wf(),
        ensures
            final(self).wf(),
            final(self).is_ready(),
            final(self).spec_capacity() == old(self).spec_capacity(),
            old(self).is_ready() ==> *final(self) == *old(self),
            !old(self).is_ready() ==> final(self).resident().len() == old(self).spec_capacity(),
    {
        if self.cell.get().is_none() {
            let cap = self.capacity;
            let f = (|| -> (q: ArrayQueue<Box<QueueStructure>>)
                ensures
                    array_queue_capacity(q) == cap as nat,
                    array_queue_contents(q).len() == cap as nat,
                    forall|s: Seq<u64>|
                        array_queue_contents(q).count(s) > 0 ==> s == Seq::<u64>::empty(),
                { build_filled_queue(cap) });
            let _ = self.cell.get_or_init(f);
        }
    }

    /// Takes one structure out of the pool, or falls back to constructing a
    /// fresh one when the pool is empty. The first call builds and
    /// pre-fills the pool. The returned structure is always canonical.
    /// Never fails.
    pub fn allocate(&mut self) -> (r: Box<QueueStructure>)
        requires
            old(self).wf(),
        ensures
            final(self).wf(),
            final(self).is_ready(),
            final(self).spec_capacity() == old(self).spec_capacity(),
            r@ == Seq::<u64>::empty(),
            old(self).is_ready() && old(self).resident().len() > 0 ==> old(self).resident().contains(r@) && final(self).resident() == old(self).resident().remove(r@),
            old(self).is_ready() && old(self).resident().len() == 0 ==> final(self).resident()
                == old(self).resident(),
            !old(self).is_ready() ==> final(self).resident().len() == old(self).spec_capacity()
                - 1,
    {
        self.ensure_ready();
        let q_opt = self.cell.take();
        match q_opt {
            Some(mut q) => {
                let r = match queue_pop(&mut q) {
                    Some(b) => b,
                    None => Box::new(QueueStructure::new()),
                };
                let _ = self.cell.set(q);
                r
            },
            None => vstd::pervasive::unreached(),
        }
    }

    /// Hands a structure back to the pool. The structure is reset to its
    /// canonical state and queued; if the pool is already full it is dropped
    /// instead, which bounds what the pool retains. The first call builds
    /// and pre-fills the pool. Never fails.
    pub fn deallocate(&mut self, element: Box<QueueStructure>)
        requires
            old(self).wf(),
        ensures
            final(self).wf(),
            final(self).is_ready(),
            final(self).spec_capacity() == old(self).spec_capacity(),
            old(self).is_ready() && old(self).resident().len() < old(self).spec_capacity() ==>
                final(self).resident() == old(self).resident().insert(Seq::<u64>::empty()),
            old(self).is_ready() && old(self).resident().len() >= old(self).spec_capacity() ==>
                final(self).resident() == old(self).resident(),
            !old(self).is_ready() ==> final(self).resident().len() == old(self).spec_capacity(),
    {
        let mut element = element;
        self.ensure_ready();
        element.reset();
        let q_opt = self.cell.take();
        match q_opt {
            Some(mut q) => {
                let _ = queue_push(&mut q, element);
                let _ = self.cell.set(q);
            },
            None => vstd::pervasive::unreached(),
        }
    }
}

/// The pool never retains more structures than its capacity.
pub proof fn lemma_resident_bounded(p: PoolAllocator)
    requires
        p.wf(),
    ensures
        p.resident().len() <= p.spec_capacity(),
{
}

/// Every structure the pool retains is canonical: `allocate` can only hand
/// out fresh-equivalent instances.
pub proof fn lemma_resident_canonical(p: PoolAllocator)
    requires
        p.wf(),
    ensures
        forall|s: Seq<u64>| p.resident().count(s) > 0 ==> s == Seq::<u64>::empty(),
{
}

/// Builds the free-list queue and pre-fills it to capacity with canonical
/// structures.
fn build_filled_queue(cap: usize) -> (q: ArrayQueue<Box<QueueStructure>>)
    requires
        1 <= cap < usize::MAX / 2,
    ensures
        array_queue_capacity(q) == cap as nat,
        array_queue_contents(q).len() == cap as nat,
        forall|s: Seq<u64>| array_queue_contents(q).count(s) > 0 ==> s == Seq::<u64>::empty(),
{
    let mut q = queue_new(cap);
    let mut i: usize = 0;
    while i < cap
        invariant
            i <= cap,
            array_queue_capacity(q) == cap as nat,
            array_queue_contents(q).len() == i as nat,
            forall|s: Seq<u64>| array_queue_contents(q).count(s) > 0 ==> s == Seq::<u64>::empty(),
        decreases cap - i,
    {
        let b = Box::new(QueueStructure::new());
        let _ = queue_push(&mut q, b);
        i += 1;
    }
    q
}

/// Takes one structure out of the pool, or constructs a fresh one when the
/// pool is empty; the first call in a process builds and pre-fills the pool.
pub fn allocate_queue(pool: &mut PoolAllocator) -> (r: Box<QueueStructure>)
    requires
        old(pool).wf(),
    ensures
        final(pool).wf(),
        final(pool).is_ready(),
        final(pool).spec_capacity() == old(pool).spec_capacity(),
        r@ == Seq::<u64>::empty(),
        old(pool).is_ready() && old(pool).resident().len() > 0 ==> old(pool).resident().contains(r@) && final(pool).resident() == old(pool).resident().remove(r@),
        old(pool).is_ready() && old(pool).resident().len() == 0 ==> final(pool).resident() == old(pool).resident(),
        !old(pool).is_ready() ==> final(pool).resident().len() == old(pool).spec_capacity() - 1,
{
    pool.allocate()
}

/// Hands a structure back to the pool, resetting it first; a full pool drops
/// it instead.
pub fn deallocate_queue(pool: &mut PoolAllocator, element: Box<QueueStructure>)
    requires
        old(pool).wf(),
    ensures
        final(pool).wf(),
        final(pool).is_ready(),
        final(pool).spec_capacity() == old(pool).spec_capacity(),
        old(pool).is_ready() && old(pool).resident().len() < old(pool).spec_capacity() ==> final(pool).resident() == old(pool).resident().insert(Seq::<u64>::empty()),
        old(pool).is_ready() && old(pool).resident().len() >= old(pool).spec_capacity() ==> final(pool).resident() == old(pool).resident(),
        !old(pool).is_ready() ==> final(pool).resident().len() == old(pool).spec_capacity(),
{
    pool.deallocate(element)
}

} // verus!

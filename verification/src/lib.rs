//! Concurrency-support primitives for a queue library: a single-assignment
//! `OnceLock` cell and a bounded recycling pool of queue structures.

mod allocator;
mod oncelock;

pub use allocator::allocate_queue;
pub use allocator::deallocate_queue;
pub use allocator::PoolAllocator;
pub use allocator::QUEUE_POOL_CAPACITY;
pub use oncelock::OnceLock;

use vstd::prelude::*;

verus! {

/// The recyclable structure handed out and taken back by the pool: a small
/// buffer of records. The pool treats it as an opaque, default-constructible
/// slot; `reset` restores the canonical fresh state.
pub struct QueueStructure {
    items: Vec<u64>,
}

impl View for QueueStructure {
    type V = Seq<u64>;

    closed spec fn view(&self) -> Seq<u64> {
        self.items@
    }
}

impl QueueStructure {
    /// A canonical, fresh structure: no records.
    pub fn new() -> (r: Self)
        ensures
            r@ == Seq::<u64>::empty(),
    {
        QueueStructure { items: Vec::new() }
    }

    /// Appends one record.
    pub fn enqueue(&mut self, v: u64)
        ensures
            final(self)@ == old(self)@.push(v),
    {
        self.items.push(v);
    }

    /// How many records the structure holds.
    pub fn len(&self) -> (r: usize)
        ensures
            r == self@.len(),
    {
        self.items.len()
    }

    /// Restores the canonical fresh state.
    pub fn reset(&mut self)
        ensures
            final(self)@ == Seq::<u64>::empty(),
    {
        self.items.clear();
    }
}

} // verus!

use queue_pool::{
    allocate_queue, deallocate_queue, PoolAllocator, QueueStructure, QUEUE_POOL_CAPACITY,
};

#[test]
fn queue_structure_records_and_reset() {
    let mut q = QueueStructure::new();
    assert_eq!(q.len(), 0);
    q.enqueue(7);
    q.enqueue(9);
    assert_eq!(q.len(), 2);
    q.reset();
    assert_eq!(q.len(), 0);
}

#[test]
fn first_allocation_builds_and_prefills_the_pool() {
    let mut pool = PoolAllocator::new();
    assert_eq!(pool.len(), 0);
    assert_eq!(pool.capacity(), QUEUE_POOL_CAPACITY);
    let first = allocate_queue(&mut pool);
    assert_eq!(first.len(), 0);
    assert_eq!(pool.len(), QUEUE_POOL_CAPACITY - 1);
}

#[test]
fn capacity_many_pooled_allocations_then_fallback() {
    let mut pool = PoolAllocator::new();
    let mut held = Vec::new();
    for i in 0..QUEUE_POOL_CAPACITY {
        held.push(allocate_queue(&mut pool));
        assert_eq!(pool.len(), QUEUE_POOL_CAPACITY - 1 - i);
    }
    assert_eq!(pool.len(), 0);
    let extra = allocate_queue(&mut pool);
    assert_eq!(extra.len(), 0);
    assert_eq!(pool.len(), 0);
}

#[test]
fn deallocate_on_full_pool_does_not_grow_it() {
    let mut pool = PoolAllocator::with_capacity(3);
    deallocate_queue(&mut pool, Box::new(QueueStructure::new()));
    assert_eq!(pool.len(), 3);
    deallocate_queue(&mut pool, Box::new(QueueStructure::new()));
    assert_eq!(pool.len(), 3);
}

#[test]
fn three_callers_on_a_pool_of_two() {
    let mut pool = PoolAllocator::with_capacity(2);
    let a = pool.allocate();
    let b = pool.allocate();
    assert_eq!(pool.len(), 0);
    let c = pool.allocate();
    assert_eq!(pool.len(), 0);
    pool.deallocate(a);
    pool.deallocate(b);
    assert_eq!(pool.len(), 2);
    pool.deallocate(c);
    assert_eq!(pool.len(), 2);
}

#[test]
fn deallocate_resets_structures_before_recycling() {
    let mut pool = PoolAllocator::with_capacity(1);
    let mut q = pool.allocate();
    q.enqueue(10);
    q.enqueue(20);
    assert_eq!(q.len(), 2);
    pool.deallocate(q);
    assert_eq!(pool.len(), 1);
    let recycled = pool.allocate();
    assert_eq!(recycled.len(), 0);
}

#[test]
fn allocate_and_deallocate_round_trips_keep_the_bound() {
    let mut pool = PoolAllocator::with_capacity(4);
    for _ in 0..3 {
        let a = pool.allocate();
        let b = pool.allocate();
        pool.deallocate(a);
        pool.deallocate(b);
        assert_eq!(pool.len(), 4);
    }
}

use dprint::pool::{Acquire, PluginPool, PluginPools, PoolError, Release};

#[test]
fn at_most_capacity_acquirers_are_served() {
    let mut pool: PluginPool<u32> = PluginPool::new(3);
    for w in 0..3u64 {
        assert!(matches!(pool.acquire(w), Acquire::Create));
    }
    assert_eq!(pool.in_use(), 3);
    for w in 3..5u64 {
        assert!(matches!(pool.acquire(w), Acquire::Wait));
        assert_eq!(pool.in_use(), 3);
    }
    assert_eq!(pool.waiting_count(), 2);
    match pool.release(100) {
        Release::HandedTo(w, inst) => {
            assert_eq!(w, 3);
            assert_eq!(inst, 100);
        }
        Release::Stored => panic!("a waiter should have been served"),
    }
    assert_eq!(pool.in_use(), 3);
    assert_eq!(pool.waiting_count(), 1);
}

#[test]
fn released_instance_is_reused() {
    let mut pool: PluginPool<u32> = PluginPool::new(2);
    assert!(matches!(pool.acquire(1), Acquire::Create));
    assert!(matches!(pool.release(7), Release::Stored));
    assert_eq!(pool.idle_count(), 1);
    assert_eq!(pool.in_use(), 0);
    match pool.acquire(2) {
        Acquire::Reused(i) => assert_eq!(i, 7),
        _ => panic!("the idle instance should be reused"),
    }
    assert_eq!(pool.idle_count(), 0);
    assert_eq!(pool.in_use(), 1);
}

#[test]
fn cancelled_wait_keeps_capacity() {
    let mut pool: PluginPool<u32> = PluginPool::new(1);
    assert!(matches!(pool.acquire(1), Acquire::Create));
    assert_eq!(pool.available(), 0);
    assert!(matches!(pool.acquire(2), Acquire::Wait));
    assert!(pool.cancel(2));
    assert!(!pool.cancel(2));
    assert_eq!(pool.waiting_count(), 0);
    assert_eq!(pool.capacity(), 1);
    assert!(matches!(pool.release(9), Release::Stored));
    assert_eq!(pool.available(), 1);
    assert!(matches!(pool.acquire(3), Acquire::Reused(9)));
}

#[test]
fn timed_out_wait_is_an_error_only_while_queued() {
    let mut pool: PluginPool<u32> = PluginPool::new(1);
    assert!(matches!(pool.acquire(1), Acquire::Create));
    assert!(matches!(pool.acquire(2), Acquire::Wait));
    assert_eq!(pool.wait_timed_out(2), Err(PoolError::ExhaustionTimeout));
    assert_eq!(pool.in_use(), 1);
    assert!(matches!(pool.acquire(3), Acquire::Wait));
    assert!(matches!(pool.release(5), Release::HandedTo(3, 5)));
    assert_eq!(pool.wait_timed_out(3), Ok(()));
}

#[test]
fn failed_instance_does_not_poison_the_pool() {
    let mut pool: PluginPool<u32> = PluginPool::new(1);
    assert!(matches!(pool.acquire(1), Acquire::Create));
    assert!(matches!(pool.acquire(2), Acquire::Wait));
    assert_eq!(pool.discard(), Some(2));
    assert_eq!(pool.in_use(), 1);
    assert_eq!(pool.discard(), None);
    assert_eq!(pool.in_use(), 0);
    assert!(matches!(pool.acquire(3), Acquire::Create));
}

#[test]
fn zero_capacity_pool_serves_nobody() {
    let mut pool: PluginPool<u32> = PluginPool::new(0);
    assert!(matches!(pool.acquire(1), Acquire::Wait));
    assert_eq!(pool.in_use(), 0);
    assert_eq!(pool.available(), 0);
}

#[test]
fn pools_are_separate_per_plugin() {
    let mut pools: PluginPools<u32> = PluginPools::new(&vec![1, 2]);
    assert_eq!(pools.len(), 2);
    assert!(matches!(pools.acquire(0, 1), Acquire::Create));
    assert!(matches!(pools.acquire(0, 2), Acquire::Wait));
    assert!(matches!(pools.acquire(1, 3), Acquire::Create));
    assert!(matches!(pools.acquire(1, 4), Acquire::Create));
    assert_eq!(pools.pool(0).in_use(), 1);
    assert_eq!(pools.pool(0).waiting_count(), 1);
    assert_eq!(pools.pool(1).in_use(), 2);
    assert!(pools.cancel(0, 2));
    assert!(matches!(pools.release(1, 8), Release::Stored));
    assert_eq!(pools.discard(0), None);
    assert_eq!(pools.pool(0).in_use(), 0);
    assert_eq!(pools.pool(1).idle_count(), 1);
}

/// Ten files formatted by concurrent tasks that share a pool of two: each
/// task asks for an instance, formats, and releases; queued tasks run when
/// an instance is handed to them.
#[test]
fn ten_files_with_capacity_two() {
    let mut pool: PluginPool<u32> = PluginPool::new(2);
    let mut next_instance: u32 = 0;
    let mut running: Vec<(u64, u32)> = Vec::new();
    let mut formatted: Vec<u64> = Vec::new();
    let mut max_in_use: usize = 0;
    for file in 0..10u64 {
        match pool.acquire(file) {
            Acquire::Create => {
                running.push((file, next_instance));
                next_instance += 1;
            }
            Acquire::Reused(i) => running.push((file, i)),
            Acquire::Wait => {}
        }
        max_in_use = max_in_use.max(pool.in_use());
    }
    while let Some((file, instance)) = running.pop() {
        formatted.push(file);
        match pool.release(instance) {
            Release::HandedTo(w, i) => running.insert(0, (w, i)),
            Release::Stored => {}
        }
        max_in_use = max_in_use.max(pool.in_use());
        assert!(running.len() <= 2);
    }
    formatted.sort();
    assert_eq!(formatted, (0..10u64).collect::<Vec<_>>());
    assert_eq!(max_in_use, 2);
    assert_eq!(next_instance, 2);
    assert_eq!(pool.in_use(), 0);
    assert_eq!(pool.idle_count(), 2);
    assert_eq!(pool.waiting_count(), 0);
}

#[test]
fn pools_time_out_a_queued_waiter() {
    let mut pools: PluginPools<u32> = PluginPools::new(&vec![1]);
    assert!(matches!(pools.acquire(0, 1), Acquire::Create));
    assert!(matches!(pools.acquire(0, 2), Acquire::Wait));
    assert_eq!(pools.wait_timed_out(0, 2), Err(PoolError::ExhaustionTimeout));
    assert_eq!(pools.pool(0).waiting_count(), 0);
    assert_eq!(pools.pool(0).in_use(), 1);
    assert_eq!(pools.wait_timed_out(0, 1), Ok(()));
}

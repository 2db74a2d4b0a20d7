use vision_memory::pool::{AdvancedBufferPool, PoolError, Pressure};

#[test]
fn test_allocate_tracked_buffers() {
    let mut pool = AdvancedBufferPool::new();

    let a = pool.allocate(300).unwrap();
    let b = pool.allocate(300).unwrap();

    // Fresh, distinct, monotone identifiers.
    assert_eq!(a.id().unwrap(), 1);
    assert_eq!(b.id().unwrap(), 2);
    assert_ne!(a.id().unwrap(), b.id().unwrap());

    // Exact length, zero-filled.
    assert_eq!(a.len().unwrap(), 300);
    assert!(a.as_slice().unwrap().iter().all(|x| *x == 0));
}

#[test]
fn test_ids_monotone_across_release() {
    let mut pool = AdvancedBufferPool::new();
    let mut a = pool.allocate(100).unwrap();
    let id_a = a.id().unwrap();
    pool.release(&mut a).unwrap();

    // The next allocation reuses the storage, never the identifier.
    let b = pool.allocate(100).unwrap();
    assert_eq!(b.id().unwrap(), id_a + 1);
}

#[test]
fn test_release_is_idempotent_and_caught() {
    let mut pool = AdvancedBufferPool::new();
    let mut buf = pool.allocate(100).unwrap();

    assert!(pool.release(&mut buf).is_ok());
    // The repeat is caught, not silently ignored.
    assert_eq!(pool.release(&mut buf), Err(PoolError::AlreadyReleased));

    // Every accessor fails deterministically after release.
    assert_eq!(buf.id(), Err(PoolError::AlreadyReleased));
    assert_eq!(buf.len(), Err(PoolError::AlreadyReleased));
    assert!(buf.as_slice().is_err());
}

#[test]
fn test_early_release_by_hand() {
    let mut pool = AdvancedBufferPool::new();
    let mut buf = pool.allocate(100).unwrap();

    assert!(buf.release());
    assert!(!buf.release()); // idempotent, and the repeat is told apart
    assert_eq!(buf.id(), Err(PoolError::AlreadyReleased));
    assert_eq!(pool.release(&mut buf), Err(PoolError::AlreadyReleased));
}

#[test]
fn test_pool_stats_and_recycling() {
    let mut pool = AdvancedBufferPool::new();

    let mut a = pool.allocate(300).unwrap();
    let mut b = pool.allocate(2000).unwrap();

    let stats = pool.stats();
    assert_eq!(stats.total_active, 2);
    assert_eq!(stats.total_allocated_bytes, 512 + 2048);
    assert_eq!(stats.pressure, Pressure::Normal);
    assert_eq!(stats.size_classes.len(), 10);
    assert_eq!(stats.size_classes[0].size, 256);
    assert_eq!(stats.size_classes[1].size, 512);
    assert_eq!(stats.size_classes[1].available, 0);
    assert_eq!(stats.size_classes[1].capacity, 10);

    pool.release(&mut a).unwrap();
    pool.release(&mut b).unwrap();

    let stats = pool.stats();
    assert_eq!(stats.total_active, 0);
    assert_eq!(stats.total_allocated_bytes, 0);
    assert_eq!(stats.size_classes[1].available, 1);
    assert_eq!(stats.size_classes[1].high_water_mark, 1);
    assert_eq!(stats.size_classes[3].available, 1);

    // The next matching allocation drains the bin again; the high-water
    // mark stays.
    let c = pool.allocate(400).unwrap();
    assert_eq!(c.len().unwrap(), 400);
    let stats = pool.stats();
    assert_eq!(stats.size_classes[1].available, 0);
    assert_eq!(stats.size_classes[1].high_water_mark, 1);
}

#[test]
fn test_pressure_thresholds() {
    let mut pool = AdvancedBufferPool::with_thresholds(256, 1000);

    let mut held = Vec::new();
    held.push(pool.allocate(200).unwrap()); // 256 bytes outstanding
    assert_eq!(pool.stats().pressure, Pressure::Normal);

    held.push(pool.allocate(200).unwrap()); // 512 bytes outstanding
    assert_eq!(pool.stats().pressure, Pressure::Elevated);

    held.push(pool.allocate(200).unwrap()); // 768 bytes outstanding
    assert_eq!(pool.stats().pressure, Pressure::Elevated);

    held.push(pool.allocate(200).unwrap()); // 1024 bytes outstanding
    assert_eq!(pool.stats().pressure, Pressure::Critical);

    for mut buf in held {
        pool.release(&mut buf).unwrap();
    }
    assert_eq!(pool.stats().pressure, Pressure::Normal);
}

#[test]
fn test_pool_accounting_balances() {
    let mut pool = AdvancedBufferPool::new();

    let mut a = pool.allocate(300).unwrap();
    let mut b = pool.allocate(70000).unwrap();
    pool.release(&mut a).unwrap();
    pool.release(&mut b).unwrap();

    let mem = pool.memory_stats();
    // Matched pairs: everything allocated was deallocated again.
    assert_eq!(mem.allocated_bytes, mem.deallocated_bytes);
    assert_eq!(mem.allocated_bytes, 512 + 131072);
    assert_eq!(mem.allocation_count, 2);
    assert_eq!(mem.deallocation_count, 2);
    // The peak saw both buffers live at once.
    assert_eq!(mem.peak_usage_bytes, 512 + 131072);
}

#[test]
fn test_oversized_tracked_buffer_unpooled() {
    let mut pool = AdvancedBufferPool::new();

    let mut big = pool.allocate(500000).unwrap();
    assert_eq!(big.len().unwrap(), 500000);
    let stats = pool.stats();
    assert_eq!(stats.total_allocated_bytes, 500000);

    // Its capacity exceeds twice the largest class: dropped, not pooled.
    pool.release(&mut big).unwrap();
    let stats = pool.stats();
    assert_eq!(stats.total_allocated_bytes, 0);
    assert_eq!(stats.size_classes[9].available, 0);
}

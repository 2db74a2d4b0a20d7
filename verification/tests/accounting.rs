use vision_memory::accounting::MemoryManager;

#[test]
fn test_matched_pairs_balance_to_zero() {
    let mut manager = MemoryManager::new();

    let sizes: [u64; 4] = [256, 4096, 131072, 77];
    for s in sizes {
        manager.record_allocation(s);
        manager.record_deallocation(s);
    }

    let stats = manager.stats();
    assert_eq!(stats.allocated_bytes - stats.deallocated_bytes, 0);
    assert_eq!(stats.allocation_count, 4);
    assert_eq!(stats.deallocation_count, 4);
}

#[test]
fn test_peak_never_falls() {
    let mut manager = MemoryManager::new();

    manager.record_allocation(100);
    assert_eq!(manager.stats().peak_usage_bytes, 100);

    manager.record_allocation(50);
    assert_eq!(manager.stats().peak_usage_bytes, 150);

    manager.record_deallocation(150);
    assert_eq!(manager.live_bytes(), 0);
    // The peak stands even as the live total falls.
    assert_eq!(manager.stats().peak_usage_bytes, 150);

    manager.record_allocation(60);
    assert_eq!(manager.stats().peak_usage_bytes, 150);

    manager.record_allocation(200);
    assert_eq!(manager.stats().peak_usage_bytes, 260);
}

#[test]
fn test_counters_are_monotone() {
    let mut manager = MemoryManager::new();
    manager.record_allocation(10);
    manager.record_allocation(20);
    manager.record_deallocation(5);

    let stats = manager.stats();
    assert_eq!(stats.allocated_bytes, 30);
    assert_eq!(stats.deallocated_bytes, 5);
    assert_eq!(stats.allocation_count, 2);
    assert_eq!(stats.deallocation_count, 1);
    assert_eq!(manager.live_bytes(), 25);
}

#[test]
fn test_stats_in_megabytes() {
    let mut manager = MemoryManager::new();
    manager.record_allocation(3 * 1048576 + 1);
    manager.record_deallocation(1048576);

    let stats = manager.stats();
    assert_eq!(stats.allocated_mb(), 3);
    assert_eq!(stats.deallocated_mb(), 1);
    assert_eq!(stats.peak_usage_mb(), 3);
}

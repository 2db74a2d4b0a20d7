use vision_memory::recycler::{BufferRecycler, RecyclableBuffer};

#[test]
fn test_buffer_recycling() {
    let mut recycler = BufferRecycler::new();

    let buf1 = recycler.acquire(500);
    assert!(buf1.len() >= 500);

    let buf2 = recycler.acquire(1000);
    assert!(buf2.len() >= 1000);

    // Buffers returned to the recycler.
    recycler.recycle(buf1);
    recycler.recycle(buf2);

    // Acquire again - should get recycled buffers.
    let buf3 = recycler.acquire(400);
    assert!(buf3.len() >= 400);
}

#[test]
fn test_recycler_dropped_before_buffer() {
    let mut recycler = BufferRecycler::new();
    let buf = recycler.acquire(100);
    drop(recycler); // Recycler dropped first
    drop(buf); // Buffer dropped after; nothing to return to
}

#[test]
fn test_buffer_without_recycler() {
    let buf = RecyclableBuffer::new(256);
    assert_eq!(buf.len(), 256);
    drop(buf); // No recycler, drops cleanly
}

#[test]
fn test_into_vec_prevents_recycling() {
    let mut recycler = BufferRecycler::new();
    let buf = recycler.acquire(100);
    let vec = buf.into_vec();
    assert_eq!(vec.len(), 100);
    // Storage consumed; it can no longer be recycled.
}

#[test]
fn test_buffer_dropped_before_recycler() {
    let mut recycler = BufferRecycler::new();
    let buf = recycler.acquire(100);
    drop(buf); // Buffer dropped first, without being recycled
    let buf2 = recycler.acquire(100); // Recycler keeps working
    assert_eq!(buf2.len(), 100);
}

#[test]
fn test_acquire_exact_length_and_class() {
    let mut recycler = BufferRecycler::new();

    // Served by the smallest class at least the request.
    let buf = recycler.acquire(300);
    assert_eq!(buf.len(), 300);
    assert_eq!(buf.original_capacity(), 512);

    let tiny = recycler.acquire(1);
    assert_eq!(tiny.len(), 1);
    assert_eq!(tiny.original_capacity(), 256);

    let exact = recycler.acquire(1024);
    assert_eq!(exact.len(), 1024);
    assert_eq!(exact.original_capacity(), 1024);

    // Beyond the ladder: an exact, unpooled allocation.
    let big = recycler.acquire(200000);
    assert_eq!(big.len(), 200000);
    assert_eq!(big.original_capacity(), 200000);

    // A zero-sized request returns an empty buffer rather than failing.
    let empty = recycler.acquire(0);
    assert_eq!(empty.len(), 0);
}

#[test]
fn test_reused_buffer_is_zero_filled() {
    let mut recycler = BufferRecycler::new();

    let mut buf = recycler.acquire(300);
    for b in buf.as_mut_slice().iter_mut() {
        *b = 0xAB;
    }
    recycler.recycle(buf);
    assert_eq!(recycler.available_for(300), 1);

    // The reused buffer must carry nothing over.
    let again = recycler.acquire(300);
    assert_eq!(recycler.available_for(300), 0);
    assert_eq!(again.len(), 300);
    assert!(again.as_slice().iter().all(|b| *b == 0));
}

#[test]
fn test_ladder_scenario() {
    let mut recycler = BufferRecycler::new();

    // A 300-byte request is served from the 512 bin.
    let mut buf = recycler.acquire(300);
    assert_eq!(buf.len(), 300);
    assert_eq!(buf.original_capacity(), 512);
    for b in buf.as_mut_slice().iter_mut() {
        *b = 7;
    }

    recycler.recycle(buf);
    assert_eq!(recycler.available_for(400), 1);

    // A 400-byte request reuses that storage, resized and zeroed.
    let reused = recycler.acquire(400);
    assert_eq!(recycler.available_for(400), 0);
    assert_eq!(reused.len(), 400);
    assert_eq!(reused.original_capacity(), 512);
    assert!(reused.as_slice().iter().all(|b| *b == 0));
}

#[test]
fn test_bin_saturation_discards_extras() {
    let mut recycler = BufferRecycler::new();

    let mut bufs = Vec::new();
    for _ in 0..12 {
        bufs.push(recycler.acquire(200));
    }
    for buf in bufs {
        recycler.recycle(buf);
    }

    // Exactly the bound stays; the two extras were discarded.
    assert_eq!(recycler.available_for(200), 10);

    // A thirteenth release changes nothing either.
    let one_more = recycler.acquire(200);
    assert_eq!(recycler.available_for(200), 9);
    let fresh = RecyclableBuffer::new(200);
    recycler.recycle(one_more);
    recycler.recycle(fresh);
    assert_eq!(recycler.available_for(200), 10);
}

#[test]
fn test_oversized_buffer_not_recycled() {
    let mut recycler = BufferRecycler::new();

    // Grown past twice its 512 class: dropped on release.
    let mut buf = recycler.acquire(300);
    buf.resize(2000, 0);
    assert_eq!(buf.len(), 2000);
    recycler.recycle(buf);
    assert_eq!(recycler.available_for(300), 0);

    // At exactly twice the class it is still kept.
    let mut ok = recycler.acquire(300);
    ok.resize(1024, 0);
    recycler.recycle(ok);
    assert_eq!(recycler.available_for(300), 1);
}

#[test]
fn test_bins_recycle_oldest_first() {
    let mut recycler = BufferRecycler::new();

    // Two buffers of the 512 class with distinct recorded capacities.
    let mut first = recycler.acquire(300);
    first.resize(700, 0);
    assert_eq!(first.capacity(), 700);
    let second = recycler.acquire(300);
    assert_eq!(second.capacity(), 300);

    recycler.recycle(first);
    recycler.recycle(second);
    assert_eq!(recycler.available_for(300), 2);

    // The queue hands the older storage back before the newer.
    let reused = recycler.acquire(300);
    assert_eq!(reused.capacity(), 700);
    let reused_next = recycler.acquire(300);
    assert_eq!(reused_next.capacity(), 300);
}

#[test]
fn test_resize_fills_with_value() {
    let mut buf = RecyclableBuffer::new(2);
    buf.resize(5, 9);
    assert_eq!(buf.as_slice(), &[0, 0, 9, 9, 9]);
    buf.resize(1, 3);
    assert_eq!(buf.as_slice(), &[0]);
}

use hdrcapture::pool::{ElasticBufferPool, PooledBuffer};
use hdrcapture::pool_model::{
    HIGH_WATERMARK, INITIAL_FRAMES, LARGE_STEP, SHRINK_RELEASE_STREAK, SMALL_STEP,
    STEP_SWITCH_FRAMES,
};

#[test]
fn test_initial_capacity() {
    let pool = ElasticBufferPool::new(1024);
    let stats = pool.stats();
    assert_eq!(stats.total_frames, INITIAL_FRAMES);
    assert_eq!(stats.free_frames, INITIAL_FRAMES);
}

#[test]
fn test_expand_on_low_watermark() {
    let mut pool = ElasticBufferPool::new(1024);
    let _a = pool.acquire();
    let _b = pool.acquire();
    // Third acquire triggers low watermark expansion before take.
    let _c = pool.acquire();
    let stats = pool.stats();
    assert!(stats.total_frames >= INITIAL_FRAMES + SMALL_STEP);
    assert!(stats.expand_count >= 1);
}

#[test]
fn test_constants() {
    assert_eq!(INITIAL_FRAMES, 3);
    assert_eq!(SMALL_STEP, 5);
    assert_eq!(LARGE_STEP, 10);
    assert_eq!(STEP_SWITCH_FRAMES, 20);
    assert_eq!(HIGH_WATERMARK, 8);
    assert_eq!(SHRINK_RELEASE_STREAK, 10);
}

#[test]
fn test_new_pool_counters() {
    let pool = ElasticBufferPool::new(64);
    let stats = pool.stats();
    assert_eq!(stats.total_frames, 3);
    assert_eq!(stats.free_frames, 3);
    assert_eq!(stats.expand_count, 0);
    assert_eq!(stats.shrink_count, 0);
    assert_eq!(stats.acquire_count, 0);
    assert_eq!(stats.alloc_count, 3);
    assert_eq!(pool.frame_bytes(), 64);
}

#[test]
fn test_acquire_hands_out_zeroed_buffer_of_frame_size() {
    let mut pool = ElasticBufferPool::new(16);
    let buffer = pool.acquire();
    assert_eq!(buffer.as_slice().len(), 16);
    assert!(buffer.as_slice().iter().all(|b| *b == 0));
    let (bytes, group_idx) = buffer.into_parts();
    assert_eq!(bytes.len(), 16);
    assert_eq!(group_idx, 0);
}

#[test]
fn test_acquire_counts_exactly() {
    let mut pool = ElasticBufferPool::new(8);
    let a = pool.acquire();
    let s1 = pool.stats();
    assert_eq!((s1.total_frames, s1.free_frames, s1.acquire_count), (3, 2, 1));
    let b = pool.acquire();
    let s2 = pool.stats();
    assert_eq!((s2.total_frames, s2.free_frames, s2.acquire_count), (3, 1, 2));
    // One free buffer is below the low watermark of two: the pool grows by five first.
    let c = pool.acquire();
    let s3 = pool.stats();
    assert_eq!(s3.total_frames, 8);
    assert_eq!(s3.free_frames, 5);
    assert_eq!(s3.expand_count, 1);
    assert_eq!(s3.alloc_count, 8);
    assert_eq!(s3.acquire_count, 3);
    // The newest group lends first.
    let (_, ga) = a.into_parts();
    let (_, gb) = b.into_parts();
    let (_, gc) = c.into_parts();
    assert_eq!((ga, gb, gc), (0, 0, 1));
}

#[test]
fn test_release_returns_buffer_to_its_group() {
    let mut pool = ElasticBufferPool::new(8);
    let a = pool.acquire();
    let before = pool.stats().free_frames;
    assert!(pool.lends_from(0));
    pool.release(a);
    assert_eq!(pool.stats().free_frames, before + 1);
    assert!(!pool.lends_from(0));
    assert!(!pool.lends_from(7));
}

#[test]
fn test_release_restores_truncated_buffer() {
    let mut pool = ElasticBufferPool::new(32);
    let buffer = pool.acquire();
    let (mut bytes, group_idx) = buffer.into_parts();
    bytes.truncate(5);
    pool.release_inner(group_idx, bytes);
    // The buffer released last is lent first, at full size again.
    let again = pool.acquire();
    assert_eq!(again.as_slice().len(), 32);
}

#[test]
fn test_as_mut_slice_writes_through() {
    let mut pool = ElasticBufferPool::new(4);
    let mut buffer = pool.acquire();
    buffer.as_mut_slice()[2] = 7;
    assert_eq!(buffer.as_slice(), &[0, 0, 7, 0]);
    assert_eq!(buffer.into_vec(), vec![0, 0, 7, 0]);
}

#[test]
fn test_acquires_then_releases_leave_all_free() {
    let mut pool = ElasticBufferPool::new(8);
    let mut loans: Vec<PooledBuffer> = Vec::new();
    for _ in 0..7 {
        loans.push(pool.acquire());
    }
    let grown = pool.stats();
    assert_eq!(grown.total_frames - grown.free_frames, 7);
    while let Some(loan) = loans.pop() {
        pool.release(loan);
    }
    let end = pool.stats();
    assert_eq!(end.free_frames, end.total_frames);
    assert!(end.total_frames >= INITIAL_FRAMES);
    assert_eq!(end.acquire_count, 7);
}

#[test]
fn test_round_trip_without_growth_keeps_free_count() {
    let mut pool = ElasticBufferPool::new(8);
    let initial = pool.stats();
    let a = pool.acquire();
    let b = pool.acquire();
    pool.release(a);
    pool.release(b);
    let end = pool.stats();
    assert_eq!(end.total_frames, initial.total_frames);
    assert_eq!(end.free_frames, initial.free_frames);
}

#[test]
fn test_shrink_after_streak_of_releases() {
    let mut pool = ElasticBufferPool::new(8);
    // Grow to eight buffers in two groups.
    let a = pool.acquire();
    let b = pool.acquire();
    let c = pool.acquire();
    assert_eq!(pool.stats().total_frames, 8);
    pool.release(c);
    pool.release(b);
    // Seven free: below the high watermark, no streak yet.
    pool.release(a);
    // Eight free, newest group unused: this release is the first of the streak.
    assert_eq!(pool.stats().shrink_count, 0);
    // Each cycle takes from the newest group and gives back: the release finds
    // the pool shrinkable again.
    for cycle in 0..9 {
        let loan = pool.acquire();
        pool.release(loan);
        let stats = pool.stats();
        if cycle < 8 {
            assert_eq!(stats.shrink_count, 0, "cycle {}", cycle);
            assert_eq!(stats.total_frames, 8);
        } else {
            assert_eq!(stats.shrink_count, 1);
            assert_eq!(stats.total_frames, 3);
            assert_eq!(stats.free_frames, 3);
        }
    }
    let end = pool.stats();
    assert_eq!(end.alloc_count, 8);
    assert_eq!(end.expand_count, 1);
}

#[test]
fn test_streak_is_broken_by_a_release_that_cannot_shrink() {
    let mut pool = ElasticBufferPool::new(8);
    let a = pool.acquire();
    let b = pool.acquire();
    let c = pool.acquire();
    pool.release(c);
    pool.release(b);
    pool.release(a);
    for _ in 0..5 {
        let loan = pool.acquire();
        pool.release(loan);
    }
    // Two loans at once: the first release leaves the newest group in use.
    let x = pool.acquire();
    let y = pool.acquire();
    pool.release(x);
    pool.release(y);
    for _ in 0..8 {
        let loan = pool.acquire();
        pool.release(loan);
    }
    assert_eq!(pool.stats().shrink_count, 0);
    let loan = pool.acquire();
    pool.release(loan);
    assert_eq!(pool.stats().shrink_count, 1);
}

#[test]
fn test_large_step_once_pool_has_twenty_frames() {
    let mut pool = ElasticBufferPool::new(1);
    let mut loans: Vec<PooledBuffer> = Vec::new();
    while pool.stats().total_frames < STEP_SWITCH_FRAMES {
        loans.push(pool.acquire());
    }
    // 3 + 5 + 5 + 5 + 5 = 23 buffers.
    assert_eq!(pool.stats().total_frames, 23);
    let groups_before = pool.stats().expand_count;
    // From here the low watermark is four and the step ten.
    while pool.stats().expand_count == groups_before {
        let free = pool.stats().free_frames;
        loans.push(pool.acquire());
        if pool.stats().expand_count == groups_before {
            assert!(free >= 4);
        } else {
            assert_eq!(free, 3);
        }
    }
    assert_eq!(pool.stats().total_frames, 33);
    assert_eq!(pool.stats().alloc_count, 33);
}

#[test]
fn test_steady_stream_reuses_buffers() {
    let mut pool = ElasticBufferPool::new(256);
    let mut held = pool.acquire();
    for _ in 0..150 {
        let next = pool.acquire();
        pool.release(held);
        held = next;
    }
    let stats = pool.stats();
    assert_eq!(stats.acquire_count, 151);
    assert_eq!(stats.total_frames, 3);
    assert_eq!(stats.alloc_count, 3);
    assert!(stats.alloc_count <= stats.total_frames + 1);
    assert_eq!(stats.expand_count, 0);
    assert_eq!(stats.shrink_count, 0);
}

#[test]
fn test_three_frames_with_cache_allocate_nothing_new() {
    // A caller that keeps each frame while the pipeline keeps the cached one.
    let mut pool = ElasticBufferPool::new(256);
    let first = pool.acquire();
    let second = pool.acquire();
    pool.release(first);
    let third = pool.acquire();
    pool.release(second);
    let stats = pool.stats();
    assert!(stats.alloc_count <= stats.total_frames);
    pool.release(third);
    assert_eq!(pool.stats().free_frames, pool.stats().total_frames);
}

#[test]
fn test_every_buffer_is_free_or_lent_after_each_drop() {
    let mut pool = ElasticBufferPool::new(8);
    let mut loans: Vec<PooledBuffer> = Vec::new();
    for _ in 0..12 {
        loans.push(pool.acquire());
        let stats = pool.stats();
        assert_eq!(stats.total_frames - stats.free_frames, loans.len());
    }
    // Give them back oldest first, so that groups empty in another order than
    // they filled.
    while !loans.is_empty() {
        let loan = loans.remove(0);
        pool.release(loan);
        let stats = pool.stats();
        assert_eq!(stats.total_frames - stats.free_frames, loans.len());
        assert!(stats.total_frames >= INITIAL_FRAMES);
        assert!(stats.alloc_count >= stats.total_frames);
    }
}

#[test]
fn test_buffer_released_last_is_lent_first() {
    let mut pool = ElasticBufferPool::new(4);
    let mut a = pool.acquire();
    let mut b = pool.acquire();
    a.as_mut_slice()[0] = 0xA;
    b.as_mut_slice()[0] = 0xB;
    pool.release(a);
    pool.release(b);
    // Both came from the first group; b lies on top.
    assert_eq!(pool.acquire().as_slice(), &[0xB, 0, 0, 0]);
    assert_eq!(pool.acquire().as_slice(), &[0xA, 0, 0, 0]);
    // The third buffer of the first group was never lent: it is still zeroed.
    // Before it is lent the pool grows, and the new group lends first.
    let c = pool.acquire();
    assert_eq!(c.as_slice(), &[0, 0, 0, 0]);
    assert_eq!(c.into_parts().1, 1);
}

#[test]
fn test_released_bytes_are_fitted_to_frame_size() {
    let mut pool = ElasticBufferPool::new(4);
    let (_, group_idx) = pool.acquire().into_parts();
    pool.release_inner(group_idx, vec![1, 2]);
    assert_eq!(pool.acquire().as_slice(), &[1, 2, 0, 0]);
    let (_, group_idx) = pool.acquire().into_parts();
    pool.release_inner(group_idx, vec![1, 2, 3, 4, 5, 6]);
    assert_eq!(pool.acquire().as_slice(), &[1, 2, 3, 4]);
}

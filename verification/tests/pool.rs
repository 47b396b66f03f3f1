use rrcp::errors::RrcpError;
use rrcp::stream_pool::{StreamPool, LOW_WATER_MARK};

#[test]
fn new_pool_is_full() {
    let pool = StreamPool::new(10);
    assert_eq!(pool.idle_count(), 10);
}

#[test]
fn sequential_checkouts_drain_to_exhaustion() {
    let pool_size = 10usize;
    let mut pool = StreamPool::new(pool_size);
    for k in 0..pool_size {
        assert!(pool.get_bi_stream().is_ok());
        assert_eq!(pool.idle_count(), pool_size - k - 1);
    }
    assert_eq!(pool.idle_count(), 0);
    assert_eq!(pool.get_bi_stream(), Err(RrcpError::PoolExhausted));
    assert_eq!(pool.idle_count(), 0);
}

#[test]
fn checkouts_never_repeat_a_token() {
    let mut pool = StreamPool::new(6);
    let mut seen = Vec::new();
    while let Ok(token) = pool.get_bi_stream() {
        assert!(!seen.contains(&token));
        seen.push(token);
    }
    assert_eq!(seen.len(), 6);
}

#[test]
fn refill_is_asked_below_the_low_water_mark() {
    let mut pool = StreamPool::new(LOW_WATER_MARK);
    assert!(!pool.needs_refill());
    pool.get_bi_stream().unwrap();
    assert!(pool.needs_refill());
}

#[test]
fn added_streams_come_back_out_first() {
    let mut pool = StreamPool::new(2);
    assert!(pool.can_add());
    let token = pool.add_stream();
    assert_eq!(pool.idle_count(), 3);
    assert_eq!(pool.get_bi_stream(), Ok(token));
}

#[test]
fn refilled_tokens_are_fresh() {
    let mut pool = StreamPool::new(3);
    let mut seen = Vec::new();
    for _ in 0..3 {
        seen.push(pool.get_bi_stream().unwrap());
    }
    let fresh = pool.add_stream();
    assert!(!seen.contains(&fresh));
    assert_eq!(pool.get_bi_stream(), Ok(fresh));
}

#[test]
fn empty_pool_fails_fast() {
    let mut pool = StreamPool::new(0);
    assert_eq!(pool.idle_count(), 0);
    assert_eq!(pool.get_bi_stream(), Err(RrcpError::PoolExhausted));
}

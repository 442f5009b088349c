use job_tracker::pool::{Acquire, Pool, PoolError};

fn pool_of(capacity: usize, timeout_ms: u64) -> Pool {
    Pool::new(capacity, timeout_ms, &vec![true; capacity]).expect("every slot opened")
}

fn ready(step: Result<Acquire, PoolError>) -> job_tracker::pool::Connection {
    match step {
        Ok(Acquire::Ready(conn)) => conn,
        other => panic!("expected a connection, got {:?}", other),
    }
}

#[test]
fn new_pool_has_every_slot_idle() {
    let pool = pool_of(3, 100);
    assert_eq!(pool.capacity(), 3);
    assert_eq!(pool.timeout_ms(), 100);
    assert_eq!(pool.available(), 3);
    assert_eq!(pool.checked_out(), 0);
}

#[test]
fn no_pool_without_capacity() {
    assert!(Pool::new(0, 100, &vec![]).is_none());
}

#[test]
fn no_partial_pool_when_a_slot_fails_to_open() {
    assert!(Pool::new(3, 100, &vec![true, false, true]).is_none());
    assert!(Pool::new(3, 100, &vec![true, true]).is_none());
    assert!(Pool::new(2, 100, &vec![true, true, true]).is_none());
}

#[test]
fn slots_are_handed_out_lowest_first() {
    let mut pool = pool_of(3, 100);
    assert_eq!(pool.try_acquire().unwrap().slot(), 0);
    assert_eq!(pool.try_acquire().unwrap().slot(), 1);
    assert_eq!(pool.try_acquire().unwrap().slot(), 2);
    assert!(pool.try_acquire().is_none());
}

#[test]
fn idle_and_checked_out_always_add_up_to_capacity() {
    let mut pool = pool_of(4, 100);
    let mut held = Vec::new();
    for round in 0..20usize {
        if round % 3 == 2 {
            if let Some(conn) = held.pop() {
                assert!(pool.release(conn).is_ok());
            }
        } else if let Some(conn) = pool.try_acquire() {
            held.push(conn);
        }
        assert_eq!(pool.available() + pool.checked_out(), pool.capacity());
        assert_eq!(pool.checked_out(), held.len());
    }
}

#[test]
fn exhausted_pool_tells_caller_to_wait_then_times_out() {
    let mut pool = pool_of(1, 100);
    let held = pool.try_acquire().unwrap();
    match pool.acquire(0) {
        Ok(Acquire::Pending { remaining_ms }) => assert_eq!(remaining_ms, 100),
        other => panic!("expected to wait, got {:?}", other),
    }
    match pool.acquire(99) {
        Ok(Acquire::Pending { remaining_ms }) => assert_eq!(remaining_ms, 1),
        other => panic!("expected to wait, got {:?}", other),
    }
    assert!(matches!(pool.acquire(100), Err(PoolError::PoolTimeout)));
    assert!(matches!(pool.acquire(5000), Err(PoolError::PoolTimeout)));
    assert_eq!(pool.available(), 0);
    assert_eq!(pool.checked_out(), 1);
    assert!(pool.is_checked_out(&held));
}

#[test]
fn acquire_after_timeout_can_be_retried() {
    let mut pool = pool_of(1, 10);
    let held = pool.try_acquire().unwrap();
    assert!(matches!(pool.acquire(10), Err(PoolError::PoolTimeout)));
    assert!(pool.release(held).is_ok());
    assert_eq!(ready(pool.acquire(0)).slot(), 0);
}

#[test]
fn released_connection_goes_to_the_next_acquire() {
    let mut pool = pool_of(2, 100);
    let a = ready(pool.acquire(0));
    let b = ready(pool.acquire(0));
    assert_eq!((a.slot(), b.slot()), (0, 1));
    assert!(matches!(pool.acquire(0), Ok(Acquire::Pending { remaining_ms: 100 })));
    assert!(pool.release(a).is_ok());
    let third = ready(pool.acquire(0));
    assert_eq!(third.slot(), 0);
    assert_eq!(pool.available(), 0);
    assert_eq!(pool.checked_out(), 2);
    assert!(pool.is_checked_out(&b));
}

#[test]
fn idle_queue_is_first_released_first_out() {
    let mut pool = pool_of(3, 100);
    let a = pool.try_acquire().unwrap();
    let b = pool.try_acquire().unwrap();
    let c = pool.try_acquire().unwrap();
    assert!(pool.release(c).is_ok());
    assert!(pool.release(a).is_ok());
    assert!(pool.release(b).is_ok());
    assert_eq!(pool.try_acquire().unwrap().slot(), 2);
    assert_eq!(pool.try_acquire().unwrap().slot(), 0);
    assert_eq!(pool.try_acquire().unwrap().slot(), 1);
}

#[test]
fn foreign_connection_is_handed_back() {
    let mut big = pool_of(2, 100);
    let mut small = pool_of(1, 100);
    let _zero = big.try_acquire().unwrap();
    let one = big.try_acquire().unwrap();
    let back = small.release(one).unwrap_err();
    assert_eq!(back.slot(), 1);
    assert_eq!(small.available(), 1);
    assert_eq!(small.checked_out(), 0);
    assert!(big.release(back).is_ok());
    assert_eq!(big.available(), 1);
}

#[test]
fn idle_slot_cannot_be_released_again() {
    let mut first = pool_of(1, 100);
    let mut second = pool_of(1, 100);
    let conn = first.try_acquire().unwrap();
    assert!(!second.is_checked_out(&conn));
    let back = second.release(conn).unwrap_err();
    assert_eq!(second.available(), 1);
    assert!(first.release(back).is_ok());
}

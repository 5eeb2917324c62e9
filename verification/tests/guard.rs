use tub::Pool;

#[test]
fn guarded_value_is_mutable() {
    let mut pool = Pool::from_copy(10, 1);
    let mut guard = pool.acquire().unwrap();
    assert_eq!(pool.remaining_capacity(), 9);
    assert_eq!(*guard.get(), 1);
    *guard.get_mut() = 2;
    assert_eq!(*guard.get(), 2);
}

#[test]
fn mutated_value_is_returned_to_pool() {
    let mut pool = Pool::from_copy(1, 1);
    let mut guard = pool.acquire().unwrap();
    assert_eq!(pool.remaining_capacity(), 0);
    assert_eq!(*guard.get(), 1);
    *guard.get_mut() = 2;
    assert_eq!(*guard.get(), 2);
    pool.release(guard);
    assert_eq!(pool.remaining_capacity(), 1);
    let guard = pool.acquire().unwrap();
    assert_eq!(pool.remaining_capacity(), 0);
    assert_eq!(*guard.get(), 2);
}

#[test]
fn round_trip_leaves_remaining_capacity_unchanged() {
    let mut pool = Pool::from_vec(vec![5, 6, 7]);
    let before = pool.remaining_capacity();
    let guard = pool.acquire().unwrap();
    pool.release(guard);
    assert_eq!(pool.remaining_capacity(), before);
}

#[test]
fn counter_reaches_total_under_repeated_reuse() {
    let mut pool = Pool::from_copy(1, 0u64);
    for _ in 0..100 {
        let mut guard = pool.acquire().unwrap();
        *guard.get_mut() += 1;
        pool.release(guard);
    }
    assert_eq!(pool.remaining_capacity(), 1);
    let guard = pool.acquire().unwrap();
    assert_eq!(*guard.get(), 100);
}

#[test]
fn every_value_can_be_out_at_once_and_all_come_back() {
    let mut pool = Pool::from_copy(3, 5u32);
    let mut guards = Vec::new();
    for _ in 0..3 {
        guards.push(pool.acquire().unwrap());
    }
    assert_eq!(pool.remaining_capacity(), 0);
    assert!(pool.acquire().is_none());
    for guard in guards {
        pool.release(guard);
    }
    assert_eq!(pool.remaining_capacity(), 3);
}

#[test]
fn zero_capacity_pool_never_yields() {
    let mut pool: Pool<u32> = Pool::from_default(0);
    assert_eq!(pool.remaining_capacity(), 0);
    for _ in 0..100 {
        assert!(pool.acquire().is_none());
    }
    assert_eq!(pool.remaining_capacity(), 0);
}

#[test]
fn into_inner_hands_the_value_out() {
    let mut pool = Pool::from_vec(vec![String::from("kept")]);
    let guard = pool.acquire().unwrap();
    assert_eq!(guard.into_inner(), "kept");
}

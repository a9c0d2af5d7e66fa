use robbo_app::pool::{Pool, PooledParticle, PooledProjectile};

#[test]
fn pool_recycles() {
    let mut pool = Pool::new();
    let a = pool.acquire(|| 1);
    pool.release(a);
    let b = pool.acquire(|| 2);
    assert_eq!(b, 1);
}

#[test]
fn pool_acquire_from_empty_uses_factory() {
    let mut pool: Pool<u32> = Pool::new();
    assert_eq!(pool.len(), 0);
    assert_eq!(pool.acquire(|| 7), 7);
    assert_eq!(pool.len(), 0);
}

#[test]
fn pool_is_last_in_first_out() {
    let mut pool = Pool::new();
    pool.release(1);
    pool.release(2);
    pool.release(3);
    assert_eq!(pool.len(), 3);
    assert_eq!(pool.acquire(|| 0), 3);
    assert_eq!(pool.acquire(|| 0), 2);
    assert_eq!(pool.len(), 1);
    assert_eq!(pool.acquire(|| 0), 1);
    assert_eq!(pool.acquire(|| 9), 9);
}

#[test]
fn pool_with_capacity_holds_defaults() {
    let mut pool: Pool<PooledProjectile> = Pool::with_capacity(4);
    assert_eq!(pool.len(), 4);
    let p = pool.acquire(|| PooledProjectile { active: true });
    assert!(!p.active);
    assert_eq!(pool.len(), 3);
    let mut particles: Pool<PooledParticle> = Pool::with_capacity(0);
    assert_eq!(particles.len(), 0);
    assert!(particles.acquire(|| PooledParticle { active: true }).active);
}

#[test]
fn pool_counts_over_interleaved_calls() {
    let mut pool: Pool<u32> = Pool::new();
    let mut factory_calls = 0;
    let mut reused = 0;
    let mut released = 0;
    let script = [true, false, false, true, true, false, true, false, false, false];
    for (i, release) in script.iter().enumerate() {
        if *release {
            pool.release(i as u32);
            released += 1;
        } else {
            let before = pool.len();
            let mut called = false;
            pool.acquire(|| {
                called = true;
                100
            });
            if called {
                factory_calls += 1;
                assert_eq!(before, 0);
            } else {
                reused += 1;
            }
        }
    }
    assert_eq!(pool.len(), released - reused);
    assert_eq!(reused + factory_calls, 6);
    assert_eq!(factory_calls, 2);
}

#[test]
fn pool_drains_its_capacity_without_factory() {
    let mut pool: Pool<PooledParticle> = Pool::with_capacity(3);
    for _ in 0..3 {
        assert!(!pool.acquire(|| PooledParticle { active: true }).active);
    }
    assert_eq!(pool.len(), 0);
    assert!(pool.acquire(|| PooledParticle { active: true }).active);
}

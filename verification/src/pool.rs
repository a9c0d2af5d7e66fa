//! Generic object pool for projectiles and particle effects.

use vstd::prelude::*;

verus! {

/// A free list of recycled values. `acquire` hands back the most recently
/// released value, or builds a fresh one when the list is empty.
pub struct Pool<T> {
    free: Vec<T>,
}

impl<T> View for Pool<T> {
    type V = Seq<T>;

    /// The free list, oldest release first.
    closed spec fn view(&self) -> Seq<T> {
        self.free@
    }
}

/// One call on a pool: a release of a value, or an acquire.
pub enum PoolOp<T> {
    Release(T),
    Acquire,
}

/// An acquire hands out a recycled value (rather than calling its factory)
/// exactly when the free list is not empty.
pub open spec fn spec_reuses<T>(free: Seq<T>) -> bool {
    free.len() > 0
}

/// The free list after an acquire: the latest release leaves it.
pub open spec fn spec_after_acquire<T>(free: Seq<T>) -> Seq<T> {
    if spec_reuses(free) { free.drop_last() } else { free }
}

/// The free list after the calls `ops`, in order.
pub open spec fn spec_run<T>(free: Seq<T>, ops: Seq<PoolOp<T>>) -> Seq<T>
    decreases ops.len(),
{
    if ops.len() == 0 {
        free
    } else {
        let before = spec_run(free, ops.drop_last());
        match ops.last() {
            PoolOp::Release(item) => before.push(item),
            PoolOp::Acquire => spec_after_acquire(before),
        }
    }
}

/// Number of releases among `ops`.
pub open spec fn releases<T>(ops: Seq<PoolOp<T>>) -> nat
    decreases ops.len(),
{
    if ops.len() == 0 { 0 } else { releases(ops.drop_last()) + if ops.last() is Release { 1nat } else { 0nat } }
}

/// Number of acquires among `ops`.
pub open spec fn acquires<T>(ops: Seq<PoolOp<T>>) -> nat
    decreases ops.len(),
{
    if ops.len() == 0 { 0 } else { acquires(ops.drop_last()) + if ops.last() is Acquire { 1nat } else { 0nat } }
}

/// Number of acquires among `ops` that found a value to recycle.
pub open spec fn reused<T>(free: Seq<T>, ops: Seq<PoolOp<T>>) -> nat
    decreases ops.len(),
{
    if ops.len() == 0 {
        0
    } else {
        reused(free, ops.drop_last())
            + if ops.last() is Acquire && spec_reuses(spec_run(free, ops.drop_last())) { 1nat } else { 0nat }
    }
}

/// Number of acquires among `ops` that found the pool empty and so called their factory.
pub open spec fn factory_calls<T>(free: Seq<T>, ops: Seq<PoolOp<T>>) -> nat
    decreases ops.len(),
{
    if ops.len() == 0 {
        0
    } else {
        factory_calls(free, ops.drop_last())
            + if ops.last() is Acquire && !spec_reuses(spec_run(free, ops.drop_last())) { 1nat } else { 0nat }
    }
}

/// `n` acquires in a row.
pub open spec fn acquire_n<T>(n: nat) -> Seq<PoolOp<T>> {
    Seq::new(n, |i: int| PoolOp::<T>::Acquire)
}

impl<T> Default for Pool<T> {
    /// An empty pool.
    fn default() -> (pool: Self)
        ensures
            pool@ == Seq::<T>::empty(),
    {
        Pool { free: Vec::new() }
    }
}

impl<T> Pool<T> {
    /// An empty pool.
    pub fn new() -> (pool: Self)
        ensures
            pool@ == Seq::<T>::empty(),
    {
        Pool { free: Vec::new() }
    }

    /// A pool pre-filled with `cap` default values.
    pub fn with_capacity(cap: usize) -> (pool: Self)
        where
            T: Default,
        ensures
            pool@.len() == cap,
            forall|i: int| 0 <= i < cap ==> call_ensures(T::default, (), #[trigger] pool@[i]),
    {
        let mut free: Vec<T> = Vec::new();
        let mut k: usize = 0;
        while k < cap
            invariant
                k <= cap,
                free@.len() == k,
                forall|i: int| 0 <= i < k ==> call_ensures(T::default, (), #[trigger] free@[i]),
            decreases cap - k,
        {
            free.push(T::default());
            k = k + 1;
        }
        Pool { free }
    }

    /// Takes a value from the pool; when the pool is empty, `factory` builds one.
    pub fn acquire<F>(&mut self, factory: F) -> (item: T)
        where
            F: FnOnce() -> T,
        requires
            factory.requires(()),
        ensures
            final(self)@ == spec_after_acquire(old(self)@),
            spec_reuses(old(self)@) ==> item == old(self)@.last(),
            !spec_reuses(old(self)@) ==> factory.ensures((), item),
    {
        match self.free.pop() {
            Some(item) => item,
            None => factory(),
        }
    }

    /// Returns a value to the pool.
    pub fn release(&mut self, item: T)
        ensures
            final(self)@ == old(self)@.push(item),
    {
        self.free.push(item);
    }

    /// Number of values waiting in the pool.
    pub fn len(&self) -> (n: usize)
        ensures
            n == self@.len(),
    {
        self.free.len()
    }
}

/// Pool slot for a projectile sprite.
#[derive(Clone, Copy)]
pub struct PooledProjectile {
    pub active: bool,
}

impl Default for PooledProjectile {
    fn default() -> (p: Self)
        ensures
            !p.active,
    {
        PooledProjectile { active: false }
    }
}

/// Pool slot for a particle sprite.
#[derive(Clone, Copy)]
pub struct PooledParticle {
    pub active: bool,
}

impl Default for PooledParticle {
    fn default() -> (p: Self)
        ensures
            !p.active,
    {
        PooledParticle { active: false }
    }
}

/// A value released into a pool is the next one acquired, and acquiring it
/// leaves the pool as it was before the release.
pub proof fn law_release_then_acquire<T>(pool: Pool<T>, item: T)
    ensures
        pool@.push(item).len() > 0,
        pool@.push(item).last() == item,
        pool@.push(item).drop_last() == pool@,
{
    assert(pool@.push(item).drop_last() =~= pool@);
}

/// Releasing grows a pool by one; acquiring from a non-empty pool shrinks it
/// by one and hands out the latest release first; acquiring from an empty
/// pool leaves it empty.
pub proof fn law_pool_sizes<T>(pool: Pool<T>, item: T)
    ensures
        pool@.push(item).len() == pool@.len() + 1,
        pool@.len() > 0 ==> pool@.drop_last().len() == pool@.len() - 1,
        pool@.len() > 0 ==> pool@.drop_last().push(pool@.last()) == pool@,
{
    if pool@.len() > 0 {
        assert(pool@.drop_last().push(pool@.last()) =~= pool@);
    }
}

/// Counting over any interleaving of releases and acquires on a pool that
/// started with `free` waiting (`with_capacity(c)` gives `c`, `new` none):
/// the pool then holds its start plus the releases minus the recycled
/// acquires, every acquire either recycles or calls its factory, and the
/// factory was called only by acquires that found the pool empty.
pub proof fn law_pool_counts<T>(free: Seq<T>, ops: Seq<PoolOp<T>>)
    ensures
        spec_run(free, ops).len() + reused(free, ops) == free.len() + releases(ops),
        reused(free, ops) + factory_calls(free, ops) == acquires(ops),
    decreases ops.len(),
{
    if ops.len() > 0 {
        law_pool_counts(free, ops.drop_last());
    }
}

/// Exactly as many acquires as values wait in a pool recycle without calling
/// a factory; they empty it, and the next acquire calls its factory.
pub proof fn law_pool_drains<T>(free: Seq<T>)
    ensures
        reused(free, acquire_n::<T>(free.len())) == free.len(),
        factory_calls(free, acquire_n::<T>(free.len())) == 0,
        spec_run(free, acquire_n::<T>(free.len())).len() == 0,
        !spec_reuses(spec_run(free, acquire_n::<T>(free.len()))),
{
    lemma_drain(free, free.len());
}

proof fn lemma_drain<T>(free: Seq<T>, k: nat)
    requires
        k <= free.len(),
    ensures
        reused(free, acquire_n::<T>(k)) == k,
        factory_calls(free, acquire_n::<T>(k)) == 0,
        spec_run(free, acquire_n::<T>(k)) == free.take(free.len() - k),
    decreases k,
{
    if k > 0 {
        lemma_drain(free, (k - 1) as nat);
        assert(acquire_n::<T>(k).drop_last() =~= acquire_n::<T>((k - 1) as nat));
        assert(free.take(free.len() - (k - 1)).drop_last() =~= free.take(free.len() - k));
    } else {
        assert(free.take(free.len() as int) =~= free);
    }
}

} // verus!

use vstd::prelude::*;

verus! {

/// The mathematical state of a pool: the values sitting idle inside it, the
/// number of values currently checked out, and the fixed capacity chosen at
/// construction.
#[verifier::ext_equal]
pub ghost struct PoolModel<T> {
    /// The idle values; an acquisition takes the last one first.
    pub idle: Seq<T>,
    /// How many values are checked out right now (one per live guard).
    pub lent: nat,
    /// The total number of values the pool manages; fixed for its lifetime.
    pub capacity: nat,
}

impl<T> PoolModel<T> {
    /// The capacity invariant: idle values and checked-out values together
    /// always account for exactly the capacity the pool was built with.
    pub open spec fn inv(self) -> bool {
        self.idle.len() + self.lent == self.capacity
    }

    /// An acquisition can succeed exactly when some value is idle.
    pub open spec fn can_acquire(self) -> bool {
        self.idle.len() > 0
    }

    /// The value the next successful acquisition hands out: the most
    /// recently returned (or last constructed) idle value.
    pub open spec fn acquired_value(self) -> T
        recommends
            self.can_acquire(),
    {
        self.idle.last()
    }

    /// The pool state after a successful acquisition.
    pub open spec fn after_acquire(self) -> PoolModel<T>
        recommends
            self.can_acquire(),
    {
        PoolModel { idle: self.idle.drop_last(), lent: self.lent + 1, capacity: self.capacity }
    }

    /// The pool state after a checked-out value `returned` comes back.
    pub open spec fn after_release(self, returned: T) -> PoolModel<T>
        recommends
            self.lent > 0,
    {
        PoolModel {
            idle: self.idle.push(returned),
            lent: (self.lent - 1) as nat,
            capacity: self.capacity,
        }
    }
}

/// Acquiring a value preserves the capacity invariant, and the capacity
/// itself never changes.
pub proof fn lemma_acquire_preserves_invariant<T>(m: PoolModel<T>)
    requires
        m.inv(),
        m.can_acquire(),
    ensures
        m.after_acquire().inv(),
        m.after_acquire().capacity == m.capacity,
{
}

/// Returning a value preserves the capacity invariant, and the capacity
/// itself never changes.
pub proof fn lemma_release_preserves_invariant<T>(m: PoolModel<T>, returned: T)
    requires
        m.inv(),
        m.lent > 0,
    ensures
        m.after_release(returned).inv(),
        m.after_release(returned).capacity == m.capacity,
{
}

/// Round trip: acquiring a value and returning it right away leaves the pool
/// exactly as it was, idle values, checked-out count and capacity alike.
pub proof fn lemma_round_trip<T>(m: PoolModel<T>)
    requires
        m.inv(),
        m.can_acquire(),
    ensures
        m.after_acquire().after_release(m.acquired_value()) == m,
{
    assert(m.idle.drop_last().push(m.idle.last()) =~= m.idle);
    assert(m.after_acquire().after_release(m.acquired_value()) =~= m);
}

/// The value handed back to the pool, with whatever mutations it picked up
/// while checked out, is exactly the value the next acquisition yields:
/// values are not reset on return.
pub proof fn lemma_returned_value_acquired_next<T>(m: PoolModel<T>, returned: T)
    requires
        m.inv(),
        m.lent > 0,
    ensures
        m.after_release(returned).can_acquire(),
        m.after_release(returned).acquired_value() == returned,
{
}

/// A pool built with capacity zero never has an idle value, so an
/// acquisition attempt can never succeed.
pub proof fn lemma_zero_capacity_never_yields<T>(m: PoolModel<T>)
    requires
        m.inv(),
        m.capacity == 0,
    ensures
        !m.can_acquire(),
{
}

/// Once every checked-out value has come back, the pool is full again: no
/// value has been lost or duplicated along the way.
pub proof fn lemma_all_returned_pool_full<T>(m: PoolModel<T>)
    requires
        m.inv(),
        m.lent == 0,
    ensures
        m.idle.len() == m.capacity,
{
}

} // verus!

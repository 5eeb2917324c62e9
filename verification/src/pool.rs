use vstd::pervasive::cloned;
use vstd::prelude::*;
use vstd::std_specs::convert::FromSpecImpl;
use vstd::std_specs::iter::IteratorSpec;

use crate::model::PoolModel;

verus! {

/// A fixed-capacity pool of reusable values.
///
/// A pool is built once with a chosen number of values and never resized.
/// [`Pool::acquire`] checks a value out, wrapped in a [`Guard`];
/// [`Pool::release`] puts the guard's value back. At every moment the idle
/// values and the checked-out values together account for the full capacity.
pub struct Pool<T> {
    idle: Vec<T>,
    capacity: usize,
    lent: Ghost<nat>,
}

impl<T> View for Pool<T> {
    type V = PoolModel<T>;

    closed spec fn view(&self) -> PoolModel<T> {
        PoolModel { idle: self.idle@, lent: self.lent@, capacity: self.capacity as nat }
    }
}

/// A handle to one value checked out of a pool.
///
/// Exactly one guard exists per checked-out value. The guard exposes the
/// value for reading and writing; handing the guard back to
/// [`Pool::release`] returns the value, mutations and all.
pub struct Guard<T> {
    value: T,
}

impl<T> View for Guard<T> {
    type V = T;

    closed spec fn view(&self) -> T {
        self.value
    }
}

impl<T> Guard<T> {
    /// Read access to the checked-out value.
    pub fn get(&self) -> (value: &T)
        ensures
            *value == self@,
    {
        &self.value
    }

    /// Write access to the checked-out value.
    pub fn get_mut(&mut self) -> (value: &mut T)
        ensures
            *value == old(self)@,
            final(self)@ == *final(value),
    {
        &mut self.value
    }

    /// Consumes the guard and hands the value itself out.
    pub fn into_inner(self) -> (value: T)
        ensures
            value == self@,
    {
        self.value
    }
}

impl<T> Pool<T> {
    /// The capacity invariant, the well-formedness every pool keeps: idle
    /// values plus checked-out values equal the construction capacity.
    pub open spec fn wf(self) -> bool {
        self@.inv()
    }

    /// Creates a pool holding exactly the given values; the capacity is
    /// their number.
    pub fn from_vec(values: Vec<T>) -> (pool: Self)
        ensures
            pool.wf(),
            pool@.idle == values@,
            pool@.capacity == values@.len(),
            pool@.lent == 0,
    {
        let capacity = values.len();
        Pool { idle: values, capacity: capacity, lent: Ghost(0nat) }
    }

    /// Creates a pool of the given capacity, filling it with one value per
    /// call of the initializer.
    pub fn from_initializer<F: Fn() -> T>(capacity: usize, init: F) -> (pool: Self)
        requires
            call_requires(init, ()),
        ensures
            pool.wf(),
            pool@.capacity == capacity,
            pool@.lent == 0,
            pool@.idle.len() == capacity,
            forall|i: int|
                0 <= i < capacity ==> call_ensures(init, (), #[trigger] pool@.idle[i]),
    {
        let mut idle: Vec<T> = Vec::new();
        let mut filled: usize = 0;
        while filled < capacity
            invariant
                filled <= capacity,
                idle@.len() == filled,
                call_requires(init, ()),
                forall|i: int| 0 <= i < filled ==> call_ensures(init, (), #[trigger] idle@[i]),
            decreases capacity - filled,
        {
            idle.push(init());
            filled = filled + 1;
        }
        Pool { idle: idle, capacity: capacity, lent: Ghost(0nat) }
    }

    /// Creates a pool from whatever the iterator yields; the capacity is
    /// the number of values it yielded.
    pub fn from_iter<I: core::iter::Iterator<Item = T>>(iterable: I) -> (pool: Self)
        ensures
            pool.wf(),
            pool@.lent == 0,
            pool@.capacity == pool@.idle.len(),
            iterable.obeys_prophetic_iter_laws() ==> pool@.idle == iterable.remaining(),
    {
        Pool::from_vec(collect_values(iterable))
    }

    /// The number of idle values: how many acquisitions can succeed right
    /// now without a value coming back first.
    pub fn remaining_capacity(&self) -> (count: usize)
        ensures
            count == self@.idle.len(),
    {
        self.idle.len()
    }

    /// The fixed capacity the pool was built with.
    pub fn capacity(&self) -> (count: usize)
        ensures
            count == self@.capacity,
    {
        self.capacity
    }

    /// Checks one value out of the pool.
    ///
    /// Returns `None` exactly when every value is already checked out (or
    /// the pool was built with capacity zero, which no acquisition can ever
    /// succeed on). A caller that must have a value retries after some guard
    /// has been released; the asynchronous wrapper is the place to suspend
    /// between retries.
    pub fn acquire(&mut self) -> (guard: Option<Guard<T>>)
        requires
            old(self).wf(),
        ensures
            final(self).wf(),
            old(self)@.can_acquire() <==> guard is Some,
            guard is Some ==> (guard->0)@ == old(self)@.acquired_value()
                && final(self)@ == old(self)@.after_acquire(),
            guard is None ==> final(self)@ == old(self)@,
    {
        match self.idle.pop() {
            Some(value) => {
                self.lent = Ghost(self.lent@ + 1);
                proof {
                    assert(self@ =~= old(self)@.after_acquire());
                }
                Some(Guard { value })
            },
            None => None,
        }
    }

    /// Puts a checked-out value back into the pool, mutations and all.
    ///
    /// A value can only come back while some guard is live, and then the
    /// capacity invariant guarantees room for it; the pool can never
    /// overfill.
    pub fn release(&mut self, guard: Guard<T>)
        requires
            old(self).wf(),
            old(self)@.lent > 0,
        ensures
            final(self).wf(),
            final(self)@ == old(self)@.after_release(guard@),
    {
        let ghost returned = guard@;
        let Guard { value } = guard;
        self.idle.push(value);
        self.lent = Ghost((self.lent@ - 1) as nat);
        proof {
            assert(self@ =~= old(self)@.after_release(returned));
        }
    }
}

impl<T: Default> Pool<T> {
    /// Creates a pool of the given capacity, filled with default values.
    pub fn from_default(capacity: usize) -> (pool: Self)
        ensures
            pool.wf(),
            pool@.capacity == capacity,
            pool@.lent == 0,
            pool@.idle.len() == capacity,
            forall|i: int|
                0 <= i < capacity ==> call_ensures(T::default, (), #[trigger] pool@.idle[i]),
    {
        Pool::from_initializer(capacity, T::default)
    }
}

impl<T: Copy> Pool<T> {
    /// Creates a pool of the given capacity, filled with copies of one
    /// value.
    pub fn from_copy(capacity: usize, value: T) -> (pool: Self)
        ensures
            pool.wf(),
            pool@.capacity == capacity,
            pool@.lent == 0,
            pool@.idle.len() == capacity,
            forall|i: int| 0 <= i < capacity ==> #[trigger] pool@.idle[i] == value,
    {
        let duplicate = (move || -> (copy: T)
            ensures
                copy == value,
            { value });
        Pool::from_initializer(capacity, duplicate)
    }
}

impl<T: Clone> Pool<T> {
    /// Creates a pool of the given capacity, filled with clones of one
    /// value.
    pub fn from_clone(capacity: usize, value: &T) -> (pool: Self)
        ensures
            pool.wf(),
            pool@.capacity == capacity,
            pool@.lent == 0,
            pool@.idle.len() == capacity,
            forall|i: int| 0 <= i < capacity ==> cloned::<T>(*value, #[trigger] pool@.idle[i]),
    {
        let duplicate = (move || -> (copy: T)
            ensures
                cloned::<T>(*value, copy),
            { value.clone() });
        Pool::from_initializer(capacity, duplicate)
    }
}

impl<T: Clone> Clone for Pool<T> {
    /// Creates an independent pool over clones of this pool's idle values,
    /// with the same capacity and the same checked-out count. Sharing one
    /// pool among several holders is the business of the asynchronous
    /// wrapper's handle, not of this value type.
    fn clone(&self) -> (other: Self)
        ensures
            other@.capacity == self@.capacity,
            other@.lent == self@.lent,
            other@.idle.len() == self@.idle.len(),
            forall|i: int|
                0 <= i < self@.idle.len()
                    ==> cloned::<T>(self@.idle[i], #[trigger] other@.idle[i]),
            self.wf() ==> other.wf(),
    {
        Pool { idle: self.idle.clone(), capacity: self.capacity, lent: self.lent }
    }
}

impl<T: Send + Sync + 'static, I: core::iter::Iterator<Item = T>> From<I> for Pool<T> {
    /// Creates a pool from whatever the iterator yields, as
    /// [`Pool::from_iter`] does.
    fn from(iterable: I) -> (pool: Self)
        ensures
            pool.wf(),
            pool@.lent == 0,
            pool@.capacity == pool@.idle.len(),
            iterable.obeys_prophetic_iter_laws() ==> pool@.idle == iterable.remaining(),
    {
        Pool::from_iter(iterable)
    }
}

impl<T: Send + Sync + 'static, I: core::iter::Iterator<Item = T>> FromSpecImpl<I> for Pool<T> {
    open spec fn obeys_from_spec() -> bool {
        false
    }

    open spec fn from_spec(iterable: I) -> Pool<T> {
        arbitrary()
    }
}

/// Relies on std's Vec::from_iter: drains the iterator and gathers every
/// value it yields into a vector, in order. For an iterator that obeys the
/// prophetic iterator laws, that is exactly its remaining sequence.
#[verifier::external_body]
fn collect_values<T, I: core::iter::Iterator<Item = T>>(iterable: I) -> (values: Vec<T>)
    ensures
        iterable.obeys_prophetic_iter_laws() ==> values@ == iterable.remaining(),
{
    Vec::from_iter(iterable)
}

} // verus!

//! A very basic, non-blocking lock for two accessors.
//!
//! The lock owns one value in a single slot. Acquiring it moves the value out
//! of the slot into a [`Guard`]; dropping the guard moves it back. A slot that
//! is empty is a lock that is held, so an attempt to acquire it a second time
//! finds nothing and fails at once. Nobody ever waits.
//!
//! The slot is a `core::cell::Cell`, which keeps every lock on the context
//! that created it: a handle cannot be sent to another thread.

use vstd::prelude::*;
use core::cell::Cell;

verus! {

/// `core::cell::Cell`, as a type whose inside the verifier does not see.
#[verifier::external_type_specification]
#[verifier::external_body]
#[verifier::reject_recursive_types(T)]
pub struct ExCell<T: ?Sized>(Cell<T>);

/// `Cell::new`: a cell that holds `value`. What a cell holds is not visible
/// to the verifier, so nothing is stated of the result.
#[verifier::external_body]
fn cell_new<T>(value: T) -> Cell<T> {
    Cell::new(value)
}

/// `Cell::replace`: stores `value` and hands back what the cell held. What a
/// cell holds is not visible to the verifier, so nothing is stated of the
/// result; the call moves two values and cannot panic.
#[verifier::external_body]
fn cell_replace<T>(cell: &Cell<T>, value: T) -> T
    opens_invariants none
    no_unwind
{
    cell.replace(value)
}

/// The lock itself: the slot that holds the value while nobody has it.
#[verifier::reject_recursive_types(T)]
pub struct LockInner<T> {
    slot: Cell<Option<T>>,
}

impl<T> LockInner<T> {
    /// An unlocked lock around `data`.
    pub fn new(data: T) -> Self {
        Self { slot: cell_new(Some(data)) }
    }

    /// What an attempt to lock comes to, given what it found in the slot: a
    /// guard around the value if there was one, nothing if the slot was
    /// empty. Only the lock itself makes guards: a guard around a value that
    /// did not come out of the slot would put a second value into it.
    fn guard_of(&self, found: Option<T>) -> (guard: Option<Guard<'_, T>>)
        ensures
            guard is Some <==> found is Some,
            guard matches Some(g) ==> g.holds() && g.payload() == found->0 && g.lock() == self,
    {
        match found {
            Some(data) => Some(Guard { lock: self, data: Some(data) }),
            None => None,
        }
    }

    /// One attempt to take the value out of the slot, which is left empty.
    /// `None` means that the slot was empty already: a guard is alive
    /// somewhere.
    pub fn try_lock(&self) -> (guard: Option<Guard<'_, T>>)
        ensures
            guard matches Some(g) ==> g.holds() && g.lock() == self,
    {
        self.guard_of(cell_replace(&self.slot, None))
    }
}

/// A lock that hands out handles to itself.
#[verifier::reject_recursive_types(T)]
pub struct Lock<T>(LockInner<T>);

impl<T> Lock<T> {
    pub closed spec fn inner(&self) -> &LockInner<T> {
        &self.0
    }

    pub fn new(data: T) -> Self {
        Self(LockInner::new(data))
    }

    /// A handle for another accessor of this lock.
    pub fn get_handle(&self) -> (handle: LockHandle<'_, T>)
        ensures
            handle.lock() == self.inner(),
    {
        LockHandle::new(&self.0)
    }

    pub fn try_lock(&self) -> (guard: Option<Guard<'_, T>>)
        ensures
            guard matches Some(g) ==> g.holds() && g.lock() == self.inner(),
    {
        self.0.try_lock()
    }
}

/// One accessor's way to the lock.
#[verifier::reject_recursive_types(T)]
pub struct LockHandle<'a, T> {
    inner: &'a LockInner<T>,
}

impl<'a, T> LockHandle<'a, T> {
    /// The lock that this handle leads to.
    pub closed spec fn lock(&self) -> &LockInner<T> {
        self.inner
    }

    pub fn new(inner: &'a LockInner<T>) -> (handle: Self)
        ensures
            handle.lock() == inner,
    {
        Self { inner }
    }

    pub fn try_lock(&self) -> (guard: Option<Guard<'a, T>>)
        ensures
            guard matches Some(g) ==> g.holds() && g.lock() == self.lock(),
    {
        self.inner.try_lock()
    }
}

/// Exclusive access to the value of a lock. The lock is released when the
/// guard is dropped.
#[verifier::reject_recursive_types(T)]
pub struct Guard<'a, T> {
    lock: &'a LockInner<T>,
    data: Option<T>,
}

impl<'a, T> Guard<'a, T> {
    /// The guard has the value. True of every guard from the moment a lock
    /// hands it out until it is dropped.
    pub closed spec fn holds(&self) -> bool {
        self.data is Some
    }

    /// The value that the guard gives access to.
    pub closed spec fn payload(&self) -> T {
        self.data->0
    }

    /// The lock that the value goes back to.
    pub closed spec fn lock(&self) -> &LockInner<T> {
        self.lock
    }

    pub fn deref(&self) -> (data: &T)
        requires
            self.holds(),
        ensures
            *data == self.payload(),
    {
        match &self.data {
            Some(data) => data,
            None => vstd::pervasive::unreached(),
        }
    }

    pub fn deref_mut(&mut self) -> (data: &mut T)
        requires
            old(self).holds(),
        ensures
            *data == old(self).payload(),
            final(self).holds(),
            final(self).payload() == *final(data),
            final(self).lock() == old(self).lock(),
    {
        match self.data.as_mut() {
            Some(data) => data,
            None => vstd::pervasive::unreached(),
        }
    }
}

impl<T> Drop for Guard<'_, T> {
    /// Puts the value back into the slot, which unlocks the lock.
    fn drop(&mut self)
        opens_invariants none
        no_unwind
    {
        let mut data: Option<T> = None;
        core::mem::swap(&mut self.data, &mut data);
        let _empty = cell_replace(&self.lock.slot, data);
    }
}

} // verus!

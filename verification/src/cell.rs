//! The cell that holds the protected value.
//!
//! The value lives in a `std::sync::RwLock`, used as a checked cell: it
//! hands out shared and exclusive borrows through a shared reference and
//! refuses a borrow that would alias. The lock asks for a borrow only after
//! the flag word has let the thread in, and only with the calls that do not
//! wait, so the cell never parks a thread.
//!
//! The cell comes from the standard library and is taken on trust. What the
//! lock makes of the cell's answer is decided by [`settle`].

use vstd::prelude::*;
use std::ops::{Deref, DerefMut};
use std::sync::{RwLock, RwLockReadGuard, RwLockWriteGuard, TryLockError};

verus! {

/// `std::sync::RwLock`, opaque.
#[verifier::external_type_specification]
#[verifier::external_body]
#[verifier::reject_recursive_types(T)]
pub struct ExRwLock<T: ?Sized>(RwLock<T>);

/// `std::sync::RwLockReadGuard`, opaque.
#[verifier::external_type_specification]
#[verifier::external_body]
#[verifier::reject_recursive_types(T)]
pub struct ExRwLockReadGuard<'a, T: ?Sized>(RwLockReadGuard<'a, T>);

/// `std::sync::RwLockWriteGuard`, opaque.
#[verifier::external_type_specification]
#[verifier::external_body]
#[verifier::reject_recursive_types(T)]
pub struct ExRwLockWriteGuard<'a, T: ?Sized + 'a>(RwLockWriteGuard<'a, T>);

/// `RwLock::new` makes a cell around a value. Nothing is claimed of the
/// result.
pub assume_specification<T>[ RwLock::<T>::new ](value: T) -> RwLock<T>;

/// `Deref::deref` of a read guard borrows the value in the cell. Nothing is
/// claimed of the value.
pub assume_specification<'a, 'b, T: ?Sized>[ <RwLockReadGuard<'a, T> as Deref>::deref ](
    guard: &'b RwLockReadGuard<'a, T>,
) -> &'b T;

/// `Deref::deref` of a write guard borrows the value in the cell. Nothing is
/// claimed of the value.
pub assume_specification<'a, 'b, T: ?Sized>[ <RwLockWriteGuard<'a, T> as Deref>::deref ](
    guard: &'b RwLockWriteGuard<'a, T>,
) -> &'b T;

/// `DerefMut::deref_mut` of a write guard borrows the value in the cell for
/// writing. Nothing is claimed of the value.
pub assume_specification<'a, 'b, T: ?Sized>[ <RwLockWriteGuard<'a, T> as DerefMut>::deref_mut ](
    guard: &'b mut RwLockWriteGuard<'a, T>,
) -> &'b mut T;

/// What the cell answers to a request for a borrow.
#[derive(Debug)]
pub enum Lent<G> {
    /// The borrow.
    Clean(G),
    /// The borrow, from a cell in which a thread panicked while it held an
    /// exclusive borrow.
    Poisoned(G),
    /// No borrow: one that is out excludes it.
    Busy,
}

/// What the lock makes of the cell's answer. The lock does not remember a
/// panic, so a poisoned borrow is as good as a clean one; a busy cell lends
/// nothing.
pub open spec fn spec_settle<G>(lent: Lent<G>) -> Option<G> {
    match lent {
        Lent::Clean(borrow) => Some(borrow),
        Lent::Poisoned(borrow) => Some(borrow),
        Lent::Busy => None,
    }
}

/// Decides from the cell's answer whether the thread has its borrow.
#[verifier::when_used_as_spec(spec_settle)]
pub fn settle<G>(lent: Lent<G>) -> (borrow: Option<G>)
    ensures
        borrow == spec_settle(lent),
{
    match lent {
        Lent::Clean(borrow) => Some(borrow),
        Lent::Poisoned(borrow) => Some(borrow),
        Lent::Busy => None,
    }
}

/// `RwLock::try_read`, which does not wait. The three outcomes that the
/// standard library documents are handed on one for one: a guard, a guard
/// inside a poison error, or the report that the call would block. Nothing
/// is claimed of which of them comes back.
#[verifier::external_body]
pub(crate) fn try_shared<T>(cell: &RwLock<T>) -> (lent: Lent<RwLockReadGuard<'_, T>>)
{
    match cell.try_read() {
        Ok(guard) => Lent::Clean(guard),
        Err(TryLockError::Poisoned(poisoned)) => Lent::Poisoned(poisoned.into_inner()),
        Err(TryLockError::WouldBlock) => Lent::Busy,
    }
}

/// `RwLock::try_write`, which does not wait. The three outcomes that the
/// standard library documents are handed on one for one: a guard, a guard
/// inside a poison error, or the report that the call would block. Nothing
/// is claimed of which of them comes back.
#[verifier::external_body]
pub(crate) fn try_exclusive<T>(cell: &RwLock<T>) -> (lent: Lent<RwLockWriteGuard<'_, T>>)
{
    match cell.try_write() {
        Ok(guard) => Lent::Clean(guard),
        Err(TryLockError::Poisoned(poisoned)) => Lent::Poisoned(poisoned.into_inner()),
        Err(TryLockError::WouldBlock) => Lent::Busy,
    }
}

} // verus!

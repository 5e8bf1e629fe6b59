//! Guarded cells for a single-threaded cooperative host: the "lock" is a
//! reentrancy detector built on `std::cell::RefCell`.
//!
//! Acquisition never waits: each `try_*` returns `None` while a conflicting
//! guard of the same cell is alive, and the guard releases access when it is
//! dropped. Acquisitions that must succeed, and panic on a conflict, are
//! left to callers.
use std::cell::{BorrowError, BorrowMutError, Ref, RefCell, RefMut};
use std::ops::{Deref, DerefMut};
use vstd::prelude::*;

verus! {

#[verifier::external_type_specification]
#[verifier::external_body]
#[verifier::reject_recursive_types(T)]
pub struct ExRefCell<T: ?Sized>(RefCell<T>);

#[verifier::external_type_specification]
#[verifier::external_body]
#[verifier::reject_recursive_types(T)]
pub struct ExRef<'b, T: ?Sized>(Ref<'b, T>);

#[verifier::external_type_specification]
#[verifier::external_body]
#[verifier::reject_recursive_types(T)]
pub struct ExRefMut<'b, T: ?Sized + 'b>(RefMut<'b, T>);

#[verifier::external_type_specification]
#[verifier::external_body]
pub struct ExBorrowError(BorrowError);

#[verifier::external_type_specification]
#[verifier::external_body]
pub struct ExBorrowMutError(BorrowMutError);

/// Relies on `RefCell::new`: wraps the value with no live borrow.
pub assume_specification<T>[ RefCell::<T>::new ](value: T) -> (r: RefCell<T>);

/// Relies on `RefCell::try_borrow`: `Err` exactly when a mutable borrow is alive.
pub assume_specification<T: ?Sized>[ RefCell::<T>::try_borrow ](c: &RefCell<T>) -> (r: Result<Ref<'_, T>, BorrowError>);

/// Relies on `RefCell::try_borrow_mut`: `Err` exactly when any borrow is alive.
pub assume_specification<T: ?Sized>[ RefCell::<T>::try_borrow_mut ](c: &RefCell<T>) -> (r: Result<RefMut<'_, T>, BorrowMutError>);

/// Exclusive-access guarded cell.
#[derive(Debug)]
#[verifier::reject_recursive_types(T)]
pub struct Mutex<T>(pub RefCell<T>);

/// Proof of exclusive access to a [`Mutex`]; access ends when it is dropped.
#[derive(Debug)]
#[verifier::reject_recursive_types(T)]
pub struct MutexGuard<'a, T>(RefMut<'a, T>);

/// Shared-access guarded cell: many readers or one writer.
#[derive(Debug)]
#[verifier::reject_recursive_types(T)]
pub struct RwLock<T>(pub RefCell<T>);

/// Proof of shared access to a [`RwLock`].
#[derive(Debug)]
#[verifier::reject_recursive_types(T)]
pub struct RwLockReadGuard<'a, T>(Ref<'a, T>);

/// Proof of exclusive access to a [`RwLock`].
#[derive(Debug)]
#[verifier::reject_recursive_types(T)]
pub struct RwLockWriteGuard<'a, T>(RefMut<'a, T>);

impl<T> Mutex<T> {
    pub fn new(value: T) -> (r: Self) {
        Mutex(RefCell::new(value))
    }

    /// Exclusive access, or `None` while another guard of this cell is alive.
    pub fn try_lock(&self) -> (r: Option<MutexGuard<'_, T>>) {
        match self.0.try_borrow_mut() {
            Ok(b) => Some(MutexGuard(b)),
            Err(_) => None,
        }
    }
}

impl<T> RwLock<T> {
    pub fn new(value: T) -> (r: Self) {
        RwLock(RefCell::new(value))
    }

    /// Shared access, or `None` while a write guard is alive.
    pub fn try_read(&self) -> (r: Option<RwLockReadGuard<'_, T>>) {
        match self.0.try_borrow() {
            Ok(b) => Some(RwLockReadGuard(b)),
            Err(_) => None,
        }
    }

    /// Exclusive access, or `None` while any guard of this cell is alive.
    pub fn try_write(&self) -> (r: Option<RwLockWriteGuard<'_, T>>) {
        match self.0.try_borrow_mut() {
            Ok(b) => Some(RwLockWriteGuard(b)),
            Err(_) => None,
        }
    }
}

impl<T> Deref for MutexGuard<'_, T> {
    type Target = T;

    /// Relies on `RefMut::deref`: the guarded value.
    #[verifier::external_body]
    fn deref(&self) -> &T {
        &self.0
    }
}

impl<T> DerefMut for MutexGuard<'_, T> {
    /// Relies on `RefMut::deref_mut`: the guarded value, mutably.
    #[verifier::external_body]
    fn deref_mut(&mut self) -> &mut T {
        &mut self.0
    }
}

impl<T> Deref for RwLockReadGuard<'_, T> {
    type Target = T;

    /// Relies on `Ref::deref`: the guarded value.
    #[verifier::external_body]
    fn deref(&self) -> &T {
        &self.0
    }
}

impl<T> Deref for RwLockWriteGuard<'_, T> {
    type Target = T;

    /// Relies on `RefMut::deref`: the guarded value.
    #[verifier::external_body]
    fn deref(&self) -> &T {
        &self.0
    }
}

impl<T> DerefMut for RwLockWriteGuard<'_, T> {
    /// Relies on `RefMut::deref_mut`: the guarded value, mutably.
    #[verifier::external_body]
    fn deref_mut(&mut self) -> &mut T {
        &mut self.0
    }
}

} // verus!

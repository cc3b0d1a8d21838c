//! The shared storage cell behind bound ports.
//!
//! This module is the crate's trusted boundary.  A [`SharedCell`] is a
//! reference-counted handle to a read/write lock guarding one type-erased
//! [`PortValue`]; Verus does not see inside it.  The wrappers here do nothing
//! but lock, downcast, test the two facts a lock is defined by — the stored
//! type and, for the value locks, the presence of a value — and move values:
//! [`ValueReadLock::cell`] and [`ValueWriteLock::cell`] project the locked
//! cell out by reference, [`CellWriteLock::swap_cell`] exchanges the whole
//! cell, and [`ValueWriteLock::swap_value`]/[`ValueWriteLock::swap_sequence`]
//! exchange its parts.  Everything the cell means — reads, the sequence
//! counter, every mutation — is computed by verified code on the projected or
//! swapped-out values.
//!
//! The model the contracts rely on: a `SharedCell` value stands for the
//! identity of its cell, together with the cell's type tag, both fixed at
//! construction.  Cloning the handle yields an equal value (the same cell);
//! the cell's mutable content is shared between every holder of the handle
//! and is therefore never stated as a function of the handle — what a read
//! returns depends on what other ports did, and the contracts only say what
//! holds of every outcome.

use vstd::prelude::*;

use core::any::{Any, TypeId};
use core::marker::PhantomData;
use std::sync::Arc;

use crate::bind::any_port_value::AnyPortValueType;
use crate::bind::port_value::PortValue;
use crate::bind::sequence_number::SequenceNumber;

verus! {

/// A shared handle to one lockable, type-erased value cell.  Clones of a
/// handle denote the same cell; the concrete type stored in a cell is fixed
/// at construction and never changes.  The cell lives as long as its last
/// handle.
#[verifier::external_body]
pub struct SharedCell {
    lock: Arc<spin::lock_api::RwLock<Box<dyn Any + Send + Sync>>>,
    tag: TypeId,
}

/// The type tag of the cell a handle denotes: an abstract stand-in for the
/// `core::any::TypeId` of the stored cell, fixed at construction.  Two
/// handles carry the same tag exactly when their cells store the same
/// concrete type.
pub uninterp spec fn cell_tag(c: SharedCell) -> int;

impl SharedCell {
    /// Relies on `Arc::new`, `lock_api::RwLock::new` and `Box::new`: a fresh
    /// cell holding `cell`, shared with nobody yet, tagged with the stored
    /// type.
    #[verifier::external_body]
    pub(crate) fn new_for<T: AnyPortValueType>(cell: PortValue<T>) -> SharedCell {
        SharedCell {
            lock: Arc::new(spin::lock_api::RwLock::new(Box::new(cell))),
            tag: TypeId::of::<PortValue<T>>(),
        }
    }

    /// Relies on `Arc::clone`: the clone is a handle to the very same cell.
    #[verifier::external_body]
    pub(crate) fn duplicate(&self) -> (r: SharedCell)
        ensures
            r == *self,
    {
        SharedCell { lock: Arc::clone(&self.lock), tag: self.tag }
    }

    /// Relies on `core::any::TypeId`'s `PartialEq`: tags compare equal
    /// exactly when the two cells store the same concrete type.
    #[verifier::external_body]
    pub(crate) fn same_tag(&self, other: &SharedCell) -> (r: bool)
        ensures
            r == (cell_tag(*self) == cell_tag(*other)),
    {
        self.tag == other.tag
    }
}

/// A write lock held on one cell whose stored type was checked to be
/// `PortValue<T>` at acquisition; the type can never change afterwards.  The
/// cell may be empty: this lock is for whole-cell exchange, which works on
/// empty and filled cells alike.  The lock is exclusive: nobody else can read
/// or write the cell while it is held.  Dropping it releases the lock.
#[verifier::external_body]
#[verifier::reject_recursive_types(T)]
pub(crate) struct CellWriteLock<T> {
    guard: lock_api::ArcRwLockWriteGuard<spin::RwLock<()>, Box<dyn Any + Send + Sync>>,
    value_type: PhantomData<T>,
}

/// A read lock held on one cell that was checked, under this same lock, to
/// store a `PortValue<T>` holding a value.  Only acquisition constructs it,
/// and both checks stay true for the lock's whole lifetime: the type never
/// changes, and a read lock excludes every writer, so nobody can empty the
/// cell.  Any number of read locks may coexist.  Dropping it releases the
/// lock.
#[verifier::external_body]
#[verifier::reject_recursive_types(T)]
pub(crate) struct ValueReadLock<T> {
    guard: lock_api::ArcRwLockReadGuard<spin::RwLock<()>, Box<dyn Any + Send + Sync>>,
    value_type: PhantomData<T>,
}

/// A write lock held on one cell that was checked, under this same lock, to
/// store a `PortValue<T>` holding a value.  Only acquisition constructs it,
/// and both checks stay true for the lock's whole lifetime: the type never
/// changes, the lock is exclusive, and the lock's own operations
/// ([`Self::swap_value`], [`Self::swap_sequence`]) always leave a value in
/// place.  Dropping it releases the lock.
#[verifier::external_body]
#[verifier::reject_recursive_types(T)]
pub(crate) struct ValueWriteLock<T> {
    guard: lock_api::ArcRwLockWriteGuard<spin::RwLock<()>, Box<dyn Any + Send + Sync>>,
    value_type: PhantomData<T>,
}

/// What acquiring the whole-cell write lock produced.
#[verifier::reject_recursive_types(T)]
pub(crate) enum WriteAttempt<T> {
    /// The lock is held and the cell stores a `PortValue<T>`, empty or not.
    Granted(CellWriteLock<T>),
    /// The cell stores a type other than `T`; no lock is held.
    WrongType,
    /// Somebody else holds the lock incompatibly; only non-blocking
    /// acquisition reports this.
    Busy,
}

/// What acquiring a read lock on a cell's value produced.
#[verifier::reject_recursive_types(T)]
pub(crate) enum ValueReadAttempt<T> {
    /// The lock is held and the cell holds a value of type `T`.
    Granted(ValueReadLock<T>),
    /// The cell stores a type other than `T`; no lock is held.
    WrongType,
    /// The cell stores a `PortValue<T>` but holds no value; no lock is held.
    Empty,
    /// Somebody else holds the lock incompatibly; only non-blocking
    /// acquisition reports this.
    Busy,
}

/// What acquiring the write lock on a cell's value produced.
#[verifier::reject_recursive_types(T)]
pub(crate) enum ValueWriteAttempt<T> {
    /// The lock is held and the cell holds a value of type `T`.
    Granted(ValueWriteLock<T>),
    /// The cell stores a type other than `T`; no lock is held.
    WrongType,
    /// The cell stores a `PortValue<T>` but holds no value; no lock is held.
    Empty,
    /// Somebody else holds the lock incompatibly; only non-blocking
    /// acquisition reports this.
    Busy,
}

impl SharedCell {
    /// Relies on `lock_api::RwLock::write_arc` and `Any::downcast_ref`:
    /// blocks until the write lock is available and keeps it in the returned
    /// [`CellWriteLock`], after checking that the stored type is
    /// `PortValue<T>`.  Never reports `Busy`.
    #[verifier::external_body]
    pub(crate) fn acquire_write<T: AnyPortValueType>(&self) -> (r: WriteAttempt<T>)
        ensures
            !(r is Busy),
    {
        let guard = self.lock.write_arc();
        if (**guard).downcast_ref::<PortValue<T>>().is_some() {
            WriteAttempt::Granted(CellWriteLock { guard, value_type: PhantomData })
        } else {
            WriteAttempt::WrongType
        }
    }

    /// Relies on `lock_api::RwLock::read_arc`, `Any::downcast_ref` and
    /// `Option::is_none`: blocks until a read lock is available, then checks
    /// under it that the cell stores a `PortValue<T>` holding a value, and
    /// keeps the lock in the returned [`ValueReadLock`] exactly when both
    /// checks pass.  Never reports `Busy`.
    #[verifier::external_body]
    pub(crate) fn acquire_read_value<T: AnyPortValueType>(&self) -> (r: ValueReadAttempt<T>)
        ensures
            !(r is Busy),
    {
        let guard = self.lock.read_arc();
        let empty = match (**guard).downcast_ref::<PortValue<T>>() {
            Some(cell) => cell.value.is_none(),
            None => return ValueReadAttempt::WrongType,
        };
        if empty {
            ValueReadAttempt::Empty
        } else {
            ValueReadAttempt::Granted(ValueReadLock { guard, value_type: PhantomData })
        }
    }

    /// Relies on `lock_api::RwLock::try_read_arc`: like
    /// [`Self::acquire_read_value`], but reports `Busy` instead of blocking
    /// when a writer holds the lock.
    #[verifier::external_body]
    pub(crate) fn try_acquire_read_value<T: AnyPortValueType>(&self) -> ValueReadAttempt<T> {
        let guard = match self.lock.try_read_arc() {
            Some(guard) => guard,
            None => return ValueReadAttempt::Busy,
        };
        let empty = match (**guard).downcast_ref::<PortValue<T>>() {
            Some(cell) => cell.value.is_none(),
            None => return ValueReadAttempt::WrongType,
        };
        if empty {
            ValueReadAttempt::Empty
        } else {
            ValueReadAttempt::Granted(ValueReadLock { guard, value_type: PhantomData })
        }
    }

    /// Relies on `lock_api::RwLock::write_arc`, `Any::downcast_ref` and
    /// `Option::is_none`: blocks until the write lock is available, then
    /// checks under it that the cell stores a `PortValue<T>` holding a value,
    /// and keeps the lock in the returned [`ValueWriteLock`] exactly when
    /// both checks pass.  Never reports `Busy`.
    #[verifier::external_body]
    pub(crate) fn acquire_write_value<T: AnyPortValueType>(&self) -> (r: ValueWriteAttempt<T>)
        ensures
            !(r is Busy),
    {
        let guard = self.lock.write_arc();
        let empty = match (**guard).downcast_ref::<PortValue<T>>() {
            Some(cell) => cell.value.is_none(),
            None => return ValueWriteAttempt::WrongType,
        };
        if empty {
            ValueWriteAttempt::Empty
        } else {
            ValueWriteAttempt::Granted(ValueWriteLock { guard, value_type: PhantomData })
        }
    }

    /// Relies on `lock_api::RwLock::try_write_arc`: like
    /// [`Self::acquire_write_value`], but reports `Busy` instead of blocking
    /// when anybody holds the lock.
    #[verifier::external_body]
    pub(crate) fn try_acquire_write_value<T: AnyPortValueType>(&self) -> ValueWriteAttempt<T> {
        let guard = match self.lock.try_write_arc() {
            Some(guard) => guard,
            None => return ValueWriteAttempt::Busy,
        };
        let empty = match (**guard).downcast_ref::<PortValue<T>>() {
            Some(cell) => cell.value.is_none(),
            None => return ValueWriteAttempt::WrongType,
        };
        if empty {
            ValueWriteAttempt::Empty
        } else {
            ValueWriteAttempt::Granted(ValueWriteLock { guard, value_type: PhantomData })
        }
    }
}

impl<T: AnyPortValueType> CellWriteLock<T> {
    /// Relies on `Any::downcast_mut` and `core::mem::replace`: exchanges the
    /// locked cell for `new`, returning what was stored.  The downcast cannot
    /// fail: acquisition checked the stored type, which never changes.  Pure
    /// move; the verified caller mutates the swapped-out cell and swaps it
    /// back before releasing the lock.
    #[verifier::external_body]
    pub(crate) fn swap_cell(&mut self, new: PortValue<T>) -> PortValue<T> {
        core::mem::replace((**self.guard).downcast_mut::<PortValue<T>>().unwrap(), new)
    }
}

impl<T: AnyPortValueType> ValueReadLock<T> {
    /// Relies on `Any::downcast_ref`: the locked cell, by reference.  The
    /// downcast cannot fail: acquisition checked the stored type, which never
    /// changes.  Pure projection; what the cell holds is read by verified
    /// code on the result.
    #[verifier::external_body]
    pub(crate) fn cell(&self) -> &PortValue<T> {
        (**self.guard).downcast_ref::<PortValue<T>>().unwrap()
    }

    /// Relies on `Any::downcast_ref` and `Option::as_ref`/`unwrap`: a
    /// reference to the held value, valid while the lock is held.  Neither
    /// unwrap can fail: acquisition checked, under this same lock, that the
    /// cell stores a `PortValue<T>` holding a value, only acquisition
    /// constructs this lock, and a read lock excludes every writer.
    #[verifier::external_body]
    pub(crate) fn value_ref(&self) -> &T {
        (**self.guard).downcast_ref::<PortValue<T>>().unwrap().value.as_ref().unwrap()
    }
}

impl<T: AnyPortValueType> ValueWriteLock<T> {
    /// Relies on `Any::downcast_ref`: the locked cell, by reference.  The
    /// downcast cannot fail: acquisition checked the stored type, which never
    /// changes.  Pure projection; what the cell holds is read by verified
    /// code on the result.
    #[verifier::external_body]
    pub(crate) fn cell(&self) -> &PortValue<T> {
        (**self.guard).downcast_ref::<PortValue<T>>().unwrap()
    }

    /// Relies on `Any::downcast_ref` and `Option::as_ref`/`unwrap`: a
    /// reference to the held value, valid while the lock is held.  Neither
    /// unwrap can fail: acquisition checked, under this same exclusive lock,
    /// that the cell stores a `PortValue<T>` holding a value, only
    /// acquisition constructs this lock, and this lock's own operations
    /// always leave a value in place.
    #[verifier::external_body]
    pub(crate) fn value_ref(&self) -> &T {
        (**self.guard).downcast_ref::<PortValue<T>>().unwrap().value.as_ref().unwrap()
    }

    /// Relies on `Any::downcast_mut`, `Option::as_mut`/`unwrap` and
    /// `core::mem::replace`: exchanges the held value for `value`, returning
    /// the previous one.  The unwraps cannot fail, as for
    /// [`Self::value_ref`]; the exchange itself keeps a value in place, so
    /// the lock's non-empty invariant is preserved.
    #[verifier::external_body]
    pub(crate) fn swap_value(&mut self, value: T) -> T {
        core::mem::replace(
            (**self.guard).downcast_mut::<PortValue<T>>().unwrap().value.as_mut().unwrap(),
            value,
        )
    }

    /// Relies on `Any::downcast_mut` and `core::mem::replace`: exchanges the
    /// cell's sequence counter for `sequence`, returning the previous one.
    /// The downcast cannot fail, as for [`Self::cell`]; the held value is
    /// untouched.  Pure move; the verified caller advances the swapped-out
    /// counter and swaps it back.
    #[verifier::external_body]
    pub(crate) fn swap_sequence(&mut self, sequence: SequenceNumber) -> SequenceNumber {
        core::mem::replace(
            &mut (**self.guard).downcast_mut::<PortValue<T>>().unwrap().sequence,
            sequence,
        )
    }
}

} // verus!

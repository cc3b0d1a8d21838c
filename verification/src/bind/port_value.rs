//! The typed cell behind a port: an optional value and its change counter.

use vstd::prelude::*;
use vstd::pervasive::{cloned, unreached};

use crate::bind::any_port_value::AnyPortValueType;
use crate::bind::sequence_number::{next_sequence, SequenceNumber};
use crate::bind::storage::{
    CellWriteLock, SharedCell, ValueReadAttempt, ValueReadLock, ValueWriteAttempt, ValueWriteLock,
    WriteAttempt,
};
use crate::error::Error;

verus! {

/// A port's value cell: an optional value of a fixed type `T`, tagged with a
/// sequence number that advances on every mutation (`set`, `replace`, `take`),
/// whether or not a value was present before.  Reading never advances it.
pub struct PortValue<T> {
    pub(crate) value: Option<T>,
    pub(crate) sequence: SequenceNumber,
}

impl<T> PortValue<T> {
    /// The value currently held, if any.
    pub closed spec fn spec_value(&self) -> Option<T> {
        self.value
    }

    /// The current sequence number.
    pub closed spec fn spec_sequence(&self) -> u32 {
        self.sequence@
    }

    /// A cell holding `value`, with its first assignment already counted.
    pub fn new(value: T) -> (r: Self)
        ensures
            r.spec_value() == Some(value),
            r.spec_sequence() == 1u32,
    {
        PortValue { value: Some(value), sequence: SequenceNumber::new(1) }
    }

    /// A cell holding nothing, never mutated.
    pub fn empty() -> (r: Self)
        ensures
            r.spec_value() is None,
            r.spec_sequence() == 0u32,
    {
        PortValue { value: None, sequence: SequenceNumber::new(0) }
    }

    /// A reference to the held value, if any.  No mutation is counted.
    pub fn as_ref(&self) -> (r: Option<&T>)
        ensures
            match r {
                Some(v) => self.spec_value() == Some(*v),
                None => self.spec_value() is None,
            },
    {
        self.value.as_ref()
    }

    /// Whether a value is held.
    pub fn is_some(&self) -> (r: bool)
        ensures
            r == (self.spec_value() is Some),
    {
        self.value.is_some()
    }

    /// Whether the cell is empty.
    pub fn is_none(&self) -> (r: bool)
        ensures
            r == (self.spec_value() is None),
    {
        self.value.is_none()
    }

    /// The current sequence number: zero until the first mutation, afterwards
    /// never zero again.
    pub fn sequence_number(&self) -> (r: u32)
        ensures
            r == self.spec_sequence(),
    {
        self.sequence.value()
    }

    /// Overwrites the held value, even with an equal one, and counts the
    /// mutation.
    pub fn set(&mut self, value: T)
        ensures
            final(self).spec_value() == Some(value),
            final(self).spec_sequence() == next_sequence(old(self).spec_sequence()),
    {
        self.sequence.increment();
        self.value = Some(value);
    }

    /// Puts `value` into the cell, returning what was held before, and counts
    /// the mutation.
    pub fn replace(&mut self, value: T) -> (r: Option<T>)
        ensures
            r == old(self).spec_value(),
            final(self).spec_value() == Some(value),
            final(self).spec_sequence() == next_sequence(old(self).spec_sequence()),
    {
        self.sequence.increment();
        let prev = self.value.take();
        self.value = Some(value);
        prev
    }

    /// Removes and returns the held value, leaving the cell empty, and counts
    /// the mutation.
    pub fn take(&mut self) -> (r: Option<T>)
        ensures
            r == old(self).spec_value(),
            final(self).spec_value() is None,
            final(self).spec_sequence() == next_sequence(old(self).spec_sequence()),
    {
        self.sequence.increment();
        self.value.take()
    }
}

impl<T: Clone> PortValue<T> {
    /// A copy of the held value, if any.  No mutation is counted.
    pub fn get(&self) -> (r: Option<T>)
        ensures
            r is Some <==> self.spec_value() is Some,
            r is Some ==> cloned(self.spec_value().unwrap(), r.unwrap()),
    {
        self.value.clone()
    }
}

/// A copy of the value in a shared cell: blocks for a read lock, then reads
/// and clones in verified code.  `None` both when the cell stores a type
/// other than `T` and when it is empty.
pub(crate) fn cell_get<T: AnyPortValueType + Clone>(cell: &SharedCell) -> Option<T> {
    match cell.acquire_read_value::<T>() {
        ValueReadAttempt::Granted(lock) => lock.cell().get(),
        ValueReadAttempt::WrongType => None,
        ValueReadAttempt::Empty => None,
        ValueReadAttempt::Busy => unreached(),
    }
}

/// Overwrites the value in a shared cell, counting one mutation, even when
/// the cell is empty: blocks for the write lock, swaps the cell out, runs the
/// verified [`PortValue::set`] on it and swaps it back.  Fails with
/// [`Error::WrongDataType`] when the cell stores a type other than `T`, in
/// which case nothing changes.
pub(crate) fn cell_set<T: AnyPortValueType>(cell: &SharedCell, value: T) -> (r: Result<(), Error>)
    ensures
        r is Err ==> r == Err::<(), Error>(Error::WrongDataType),
{
    match cell.acquire_write::<T>() {
        WriteAttempt::Granted(mut lock) => {
            let mut stored = lock.swap_cell(PortValue::empty());
            stored.set(value);
            let _ = lock.swap_cell(stored);
            Ok(())
        },
        WriteAttempt::WrongType => Err(Error::WrongDataType),
        WriteAttempt::Busy => unreached(),
    }
}

/// Puts `value` into a shared cell and returns what was held before, counting
/// one mutation, by the same swap-out, verified [`PortValue::replace`],
/// swap-back route as [`cell_set`].  `None` both when the cell was empty and
/// when it stores a type other than `T`; in the latter case nothing changes.
pub(crate) fn cell_replace<T: AnyPortValueType>(cell: &SharedCell, value: T) -> Option<T> {
    match cell.acquire_write::<T>() {
        WriteAttempt::Granted(mut lock) => {
            let mut stored = lock.swap_cell(PortValue::empty());
            let previous = stored.replace(value);
            let _ = lock.swap_cell(stored);
            previous
        },
        WriteAttempt::WrongType => None,
        WriteAttempt::Busy => unreached(),
    }
}

/// Removes and returns the value of a shared cell, leaving it empty and
/// counting one mutation, by the same swap-out, verified
/// [`PortValue::take`], swap-back route as [`cell_set`].  `None` both when
/// the cell was already empty and when it stores a type other than `T`; in
/// the latter case nothing changes.
pub(crate) fn cell_take<T: AnyPortValueType>(cell: &SharedCell) -> Option<T> {
    match cell.acquire_write::<T>() {
        WriteAttempt::Granted(mut lock) => {
            let mut stored = lock.swap_cell(PortValue::empty());
            let previous = stored.take();
            let _ = lock.swap_cell(stored);
            previous
        },
        WriteAttempt::WrongType => None,
        WriteAttempt::Busy => unreached(),
    }
}

/// A scoped, read-locked view of a port's value.
///
/// While the guard lives, a read lock is held on the port's cell: any number
/// of read guards may coexist, but no write guard.  Dropping the guard
/// releases the lock.
#[must_use]
#[verifier::reject_recursive_types(T)]
pub struct PortValueReadGuard<T> {
    inner: ValueReadLock<T>,
}

/// Turns a read-lock attempt into a guard or the error the attempt calls
/// for: a granted lock becomes a guard, an empty cell reports
/// [`Error::NoValueSet`], a stored type other than the requested one
/// [`Error::WrongDataType`], and a lock somebody else holds
/// [`Error::IsLocked`] — each exactly.
fn guard_read_attempt<T: AnyPortValueType>(attempt: ValueReadAttempt<T>) -> (r: Result<
    PortValueReadGuard<T>,
    Error,
>)
    ensures
        (attempt is Granted) <==> r is Ok,
        (attempt is Empty) <==> r == Err::<PortValueReadGuard<T>, Error>(Error::NoValueSet),
        (attempt is WrongType) <==> r == Err::<PortValueReadGuard<T>, Error>(
            Error::WrongDataType,
        ),
        (attempt is Busy) <==> r == Err::<PortValueReadGuard<T>, Error>(Error::IsLocked),
{
    match attempt {
        ValueReadAttempt::Granted(inner) => Ok(PortValueReadGuard { inner }),
        ValueReadAttempt::WrongType => Err(Error::WrongDataType),
        ValueReadAttempt::Empty => Err(Error::NoValueSet),
        ValueReadAttempt::Busy => Err(Error::IsLocked),
    }
}

impl<T: AnyPortValueType> PortValueReadGuard<T> {
    /// A read guard on `cell`, blocking until the lock is free.
    ///
    /// Fails with [`Error::WrongDataType`] when the cell does not store a
    /// `T`, and with [`Error::NoValueSet`] when it stores no value yet, each
    /// checked under the acquired lock; it never fails with
    /// [`Error::IsLocked`].
    pub(crate) fn new(cell: &SharedCell) -> (r: Result<Self, Error>)
        ensures
            r is Err ==> r == Err::<Self, Error>(Error::WrongDataType) || r == Err::<Self, Error>(
                Error::NoValueSet,
            ),
    {
        guard_read_attempt(cell.acquire_read_value::<T>())
    }

    /// A read guard on `cell`, failing with [`Error::IsLocked`] instead of
    /// blocking when a writer holds the lock.  Otherwise as [`Self::new`].
    pub(crate) fn try_new(cell: &SharedCell) -> (r: Result<Self, Error>)
        ensures
            r is Err ==> r == Err::<Self, Error>(Error::WrongDataType) || r == Err::<Self, Error>(
                Error::NoValueSet,
            ) || r == Err::<Self, Error>(Error::IsLocked),
    {
        guard_read_attempt(cell.try_acquire_read_value::<T>())
    }

    /// A reference to the locked value.
    pub fn value(&self) -> &T {
        self.inner.value_ref()
    }

    /// The cell's sequence number, which cannot change while this guard
    /// holds its read lock.
    pub fn sequence_number(&self) -> u32 {
        self.inner.cell().sequence_number()
    }
}

impl<T: AnyPortValueType> core::ops::Deref for PortValueReadGuard<T> {
    type Target = T;

    fn deref(&self) -> &T {
        self.inner.value_ref()
    }
}

/// A scoped, write-locked view of a port's value.
///
/// While the guard lives, the exclusive write lock is held on the port's
/// cell.  The cell's sequence number advances exactly once per guard that
/// wrote at all, however many writes it performed, and not at all for a
/// guard that only read.  Dropping the guard releases the lock.
#[must_use]
#[verifier::reject_recursive_types(T)]
pub struct PortValueWriteGuard<T> {
    inner: ValueWriteLock<T>,
    modified: bool,
}

/// Turns a write-lock attempt into a guard or the error the attempt calls
/// for, exactly as [`guard_read_attempt`] does for read locks.  A fresh
/// guard has written nothing yet.
fn guard_write_attempt<T: AnyPortValueType>(attempt: ValueWriteAttempt<T>) -> (r: Result<
    PortValueWriteGuard<T>,
    Error,
>)
    ensures
        (attempt is Granted) <==> r is Ok,
        (attempt is Empty) <==> r == Err::<PortValueWriteGuard<T>, Error>(Error::NoValueSet),
        (attempt is WrongType) <==> r == Err::<PortValueWriteGuard<T>, Error>(
            Error::WrongDataType,
        ),
        (attempt is Busy) <==> r == Err::<PortValueWriteGuard<T>, Error>(Error::IsLocked),
        r matches Ok(g) ==> !g.spec_modified(),
{
    match attempt {
        ValueWriteAttempt::Granted(inner) => Ok(PortValueWriteGuard { inner, modified: false }),
        ValueWriteAttempt::WrongType => Err(Error::WrongDataType),
        ValueWriteAttempt::Empty => Err(Error::NoValueSet),
        ValueWriteAttempt::Busy => Err(Error::IsLocked),
    }
}

impl<T: AnyPortValueType> PortValueWriteGuard<T> {
    /// Whether this guard has written to the cell.
    pub closed spec fn spec_modified(&self) -> bool {
        self.modified
    }

    /// A write guard on `cell`, blocking until the lock is free.
    ///
    /// Fails with [`Error::WrongDataType`] when the cell does not store a
    /// `T`, and with [`Error::NoValueSet`] when it stores no value yet, each
    /// checked under the acquired lock; it never fails with
    /// [`Error::IsLocked`].
    pub(crate) fn new(cell: &SharedCell) -> (r: Result<Self, Error>)
        ensures
            r is Err ==> r == Err::<Self, Error>(Error::WrongDataType) || r == Err::<Self, Error>(
                Error::NoValueSet,
            ),
            r matches Ok(g) ==> !g.spec_modified(),
    {
        guard_write_attempt(cell.acquire_write_value::<T>())
    }

    /// A write guard on `cell`, failing with [`Error::IsLocked`] instead of
    /// blocking when anybody holds the lock.  Otherwise as [`Self::new`].
    pub(crate) fn try_new(cell: &SharedCell) -> (r: Result<Self, Error>)
        ensures
            r is Err ==> r == Err::<Self, Error>(Error::WrongDataType) || r == Err::<Self, Error>(
                Error::NoValueSet,
            ) || r == Err::<Self, Error>(Error::IsLocked),
            r matches Ok(g) ==> !g.spec_modified(),
    {
        guard_write_attempt(cell.try_acquire_write_value::<T>())
    }

    /// A reference to the locked value.
    pub fn value(&self) -> &T {
        self.inner.value_ref()
    }

    /// Writes `value` to the locked cell.  The first write through a guard
    /// swaps the cell's counter out, advances it by the verified
    /// [`SequenceNumber::increment`] and swaps it back; later writes through
    /// the same guard only exchange the value, so the counter advances
    /// exactly once per writing guard.
    pub fn set(&mut self, value: T)
        ensures
            final(self).spec_modified(),
    {
        if !self.modified {
            let mut counter = self.inner.swap_sequence(SequenceNumber::new(0));
            counter.increment();
            let _ = self.inner.swap_sequence(counter);
            self.modified = true;
        }
        let _ = self.inner.swap_value(value);
    }

    /// The cell's sequence number; only this guard's holder can change it.
    pub fn sequence_number(&self) -> u32 {
        self.inner.cell().sequence_number()
    }
}

impl<T: AnyPortValueType> core::ops::Deref for PortValueWriteGuard<T> {
    type Target = T;

    fn deref(&self) -> &T {
        self.inner.value_ref()
    }
}

} // verus!

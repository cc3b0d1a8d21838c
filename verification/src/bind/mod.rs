//! Ports bound to shared, lockable storage cells.

pub mod any_port_value;
pub mod in_out_port;
pub mod in_port;
pub mod out_port;
pub mod port_value;
pub mod sequence_number;
pub(crate) mod storage;

use vstd::prelude::*;

use crate::any_port::AnyPortType;
use crate::bind::any_port_value::AnyPortValueType;
use crate::bind::port_value::{PortValueReadGuard, PortValueWriteGuard};
use crate::bind::storage::cell_tag;
use crate::error::Error;

verus! {

/// What every bound port can do: be rebound to another port's cell.
pub trait BindCommons: AnyPortType {
    /// The binding protocol.  Compares the type tag of this port's cell with
    /// the tag of `other`'s cell: on a match, this port's handle is replaced
    /// by a handle to `other`'s cell, so both ports alias the same storage
    /// from now on; on a mismatch, this port is left exactly as it was and
    /// the binding fails with [`Error::WrongDataType`].  `other` is never
    /// changed.
    fn bind_to<P: AnyPortType>(&mut self, other: &P) -> (r: Result<(), Error>)
        ensures
            r is Ok <==> cell_tag(other.spec_cell()) == cell_tag(old(self).spec_cell()),
            r is Ok ==> final(self).spec_cell() == other.spec_cell(),
            r is Err ==> *final(self) == *old(self)
                && r == Err::<(), Error>(Error::WrongDataType),
    ;

    /// Binds this port to `other`: a synonym for [`Self::bind_to`].
    fn bind<P: AnyPortType>(&mut self, other: &P) -> (r: Result<(), Error>)
        ensures
            r is Ok <==> cell_tag(other.spec_cell()) == cell_tag(old(self).spec_cell()),
            r is Ok ==> final(self).spec_cell() == other.spec_cell(),
            r is Err ==> *final(self) == *old(self)
                && r == Err::<(), Error>(Error::WrongDataType),
    {
        self.bind_to(other)
    }
}

/// What an incoming bound port can do: read the shared value.
pub trait BindIn<T: AnyPortValueType>: BindCommons {
    /// A copy of the shared value: `None` when the cell is empty or stores a
    /// type other than `T`.  Blocks while a writer holds the cell.
    fn get(&self) -> Option<T> where T: Clone;

    /// A read guard on the shared value, blocking until the lock is free.
    /// Fails with [`Error::WrongDataType`] when the cell does not store a
    /// `T`, and with [`Error::NoValueSet`] when it is empty; it never fails
    /// with [`Error::IsLocked`].
    fn read(&self) -> (r: Result<PortValueReadGuard<T>, Error>)
        ensures
            r is Err ==> r == Err::<PortValueReadGuard<T>, Error>(Error::WrongDataType) || r
                == Err::<PortValueReadGuard<T>, Error>(Error::NoValueSet),
    ;

    /// A read guard on the shared value, failing with [`Error::IsLocked`]
    /// instead of blocking when a writer holds the lock.  Otherwise as
    /// [`Self::read`].
    fn try_read(&self) -> (r: Result<PortValueReadGuard<T>, Error>)
        ensures
            r is Err ==> r == Err::<PortValueReadGuard<T>, Error>(Error::WrongDataType) || r
                == Err::<PortValueReadGuard<T>, Error>(Error::NoValueSet) || r == Err::<
                PortValueReadGuard<T>,
                Error,
            >(Error::IsLocked),
    ;
}

/// What an outgoing bound port can do: write the shared value.
pub trait BindOut<T: AnyPortValueType>: BindCommons {
    /// Overwrites the shared value, counting one mutation, even on an empty
    /// cell.  Fails with [`Error::WrongDataType`] when the cell does not
    /// store a `T`, in which case nothing changes.  Blocks while the cell is
    /// locked.
    fn set(&self, value: T) -> (r: Result<(), Error>)
        ensures
            r is Err ==> r == Err::<(), Error>(Error::WrongDataType),
    ;

    /// A write guard on the shared value, blocking until the lock is free.
    /// Fails with [`Error::WrongDataType`] when the cell does not store a
    /// `T`, and with [`Error::NoValueSet`] when it is empty; it never fails
    /// with [`Error::IsLocked`].
    fn write(&self) -> (r: Result<PortValueWriteGuard<T>, Error>)
        ensures
            r is Err ==> r == Err::<PortValueWriteGuard<T>, Error>(Error::WrongDataType) || r
                == Err::<PortValueWriteGuard<T>, Error>(Error::NoValueSet),
            r matches Ok(g) ==> !g.spec_modified(),
    ;

    /// A write guard on the shared value, failing with [`Error::IsLocked`]
    /// instead of blocking when anybody holds the lock.  Otherwise as
    /// [`Self::write`].
    fn try_write(&self) -> (r: Result<PortValueWriteGuard<T>, Error>)
        ensures
            r is Err ==> r == Err::<PortValueWriteGuard<T>, Error>(Error::WrongDataType) || r
                == Err::<PortValueWriteGuard<T>, Error>(Error::NoValueSet) || r == Err::<
                PortValueWriteGuard<T>,
                Error,
            >(Error::IsLocked),
            r matches Ok(g) ==> !g.spec_modified(),
    ;
}

/// What a two-way bound port can do beyond reading and writing.
pub trait BindInOut<T: AnyPortValueType>: BindIn<T> + BindOut<T> {
    /// Puts `value` into the shared cell and returns what was held before,
    /// counting one mutation.  `None` both when the cell was empty and when
    /// it stores a type other than `T`; in the latter case nothing changes.
    /// Blocks while the cell is locked.
    fn replace(&self, value: T) -> Option<T>;

    /// Removes and returns the shared value, leaving the cell empty and
    /// counting one mutation.  `None` both when the cell was already empty
    /// and when it stores a type other than `T`; in the latter case nothing
    /// changes.  Blocks while the cell is locked.
    fn take(&self) -> Option<T>;
}

} // verus!

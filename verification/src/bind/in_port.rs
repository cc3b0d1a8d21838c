//! A bound port that only reads its shared value.

use vstd::prelude::*;

use crate::any_port::AnyPortType;
use crate::bind::any_port_value::AnyPortValueType;
use crate::bind::port_value::{cell_get, PortValue, PortValueReadGuard};
use crate::bind::storage::SharedCell;
use crate::bind::{BindCommons, BindIn};
use crate::error::Error;

verus! {

/// An input port: a handle to a shared cell that exposes only the reading
/// operations.  Freshly constructed it has a cell of its own; binding it to
/// another port makes it alias that port's cell instead.
pub struct BoundInPort {
    cell: SharedCell,
}

impl BoundInPort {
    /// A port for values of type `T`, holding no value yet.
    pub fn new<T: AnyPortValueType>() -> Self {
        BoundInPort { cell: SharedCell::new_for(PortValue::<T>::empty()) }
    }

    /// A port for values of type `T`, holding no value yet.
    pub fn empty<T: AnyPortValueType>() -> Self {
        BoundInPort { cell: SharedCell::new_for(PortValue::<T>::empty()) }
    }

    /// A port holding `value`, with the first assignment already counted.
    pub fn with_value<T: AnyPortValueType>(value: T) -> Self {
        BoundInPort { cell: SharedCell::new_for(PortValue::new(value)) }
    }

    /// Replaces this port's handle by `value` when the type tags match;
    /// fails with [`Error::WrongDataType`] and changes nothing otherwise.
    pub(crate) fn set_value(&mut self, value: SharedCell) -> (r: Result<(), Error>)
        ensures
            r is Ok <==> crate::bind::storage::cell_tag(value)
                == crate::bind::storage::cell_tag(old(self).spec_cell()),
            r is Ok ==> final(self).spec_cell() == value,
            r is Err ==> *final(self) == *old(self)
                && r == Err::<(), Error>(Error::WrongDataType),
    {
        if self.cell.same_tag(&value) {
            self.cell = value;
            Ok(())
        } else {
            Err(Error::WrongDataType)
        }
    }

    /// A fresh handle to this port's cell.
    pub(crate) fn value(&self) -> (r: SharedCell)
        ensures
            r == self.spec_cell(),
    {
        self.cell.duplicate()
    }
}

impl AnyPortType for BoundInPort {
    closed spec fn spec_cell(&self) -> SharedCell {
        self.cell
    }

    fn bound_cell(&self) -> SharedCell {
        self.cell.duplicate()
    }
}

impl BindCommons for BoundInPort {
    fn bind_to<P: AnyPortType>(&mut self, other: &P) -> Result<(), Error> {
        self.set_value(other.bound_cell())
    }
}

impl<T: AnyPortValueType> BindIn<T> for BoundInPort {
    fn get(&self) -> Option<T> where T: Clone {
        cell_get(&self.cell)
    }

    fn read(&self) -> Result<PortValueReadGuard<T>, Error> {
        PortValueReadGuard::new(&self.cell)
    }

    fn try_read(&self) -> Result<PortValueReadGuard<T>, Error> {
        PortValueReadGuard::try_new(&self.cell)
    }
}

impl Clone for BoundInPort {
    /// A new port of the same direction aliasing the same cell: the value is
    /// shared, not copied.
    fn clone(&self) -> (r: Self)
        ensures
            r == *self,
    {
        BoundInPort { cell: self.cell.duplicate() }
    }
}

} // verus!

//! A port tagged with its direction, for heterogeneous collections.

use vstd::prelude::*;

use crate::any_port::AnyPortType;
use crate::bind::any_port_value::AnyPortValueType;
use crate::bind::in_out_port::BoundInOutPort;
use crate::bind::in_port::BoundInPort;
use crate::bind::out_port::BoundOutPort;
use crate::bind::storage::cell_tag;
use crate::bind::BindCommons;
use crate::error::Error;

verus! {

/// The set of port directions a collection can hold.  A port's direction is
/// fixed at construction; the only mutable aspect is which cell the port
/// aliases, changed by [`PortVariant::connect_to`].
/// - `InBound`: only readable.
/// - `InOutBound`: readable and writeable.
/// - `OutBound`: only writeable.
pub enum PortVariant {
    InBound(BoundInPort),
    InOutBound(BoundInOutPort),
    OutBound(BoundOutPort),
}

impl AnyPortType for PortVariant {
    closed spec fn spec_cell(&self) -> crate::bind::storage::SharedCell {
        match self {
            PortVariant::InBound(port) => port.spec_cell(),
            PortVariant::InOutBound(port) => port.spec_cell(),
            PortVariant::OutBound(port) => port.spec_cell(),
        }
    }

    fn bound_cell(&self) -> crate::bind::storage::SharedCell {
        match self {
            PortVariant::InBound(port) => port.bound_cell(),
            PortVariant::InOutBound(port) => port.bound_cell(),
            PortVariant::OutBound(port) => port.bound_cell(),
        }
    }
}

impl PortVariant {
    /// An input port holding `value`.
    pub fn create_inbound<T: AnyPortValueType>(value: T) -> (r: Self)
        ensures
            r is InBound,
    {
        PortVariant::InBound(BoundInPort::with_value(value))
    }

    /// An input/output port holding `value`.
    pub fn create_inoutbound<T: AnyPortValueType>(value: T) -> (r: Self)
        ensures
            r is InOutBound,
    {
        PortVariant::InOutBound(BoundInOutPort::with_value(value))
    }

    /// An output port holding `value`.
    pub fn create_outbound<T: AnyPortValueType>(value: T) -> (r: Self)
        ensures
            r is OutBound,
    {
        PortVariant::OutBound(BoundOutPort::with_value(value))
    }

    /// Binds this port to `other`, whatever the two directions: one entry
    /// point for collections.  On a type-tag match this port aliases
    /// `other`'s cell from now on; on a mismatch it is left unchanged and the
    /// call fails with [`Error::WrongDataType`].  The direction never
    /// changes.
    pub fn connect_to(&mut self, other: &PortVariant) -> (r: Result<(), Error>)
        ensures
            r is Ok <==> cell_tag(other.spec_cell()) == cell_tag(old(self).spec_cell()),
            r is Ok ==> final(self).spec_cell() == other.spec_cell(),
            r is Err ==> *final(self) == *old(self)
                && r == Err::<(), Error>(Error::WrongDataType),
            (*final(self) is InBound) == (*old(self) is InBound),
            (*final(self) is InOutBound) == (*old(self) is InOutBound),
            (*final(self) is OutBound) == (*old(self) is OutBound),
    {
        match self {
            PortVariant::InBound(port) => port.bind_to(other),
            PortVariant::InOutBound(port) => port.bind_to(other),
            PortVariant::OutBound(port) => port.bind_to(other),
        }
    }
}

impl Clone for PortVariant {
    /// A new port of the same direction aliasing the same cell: the value is
    /// shared, not copied.
    fn clone(&self) -> (r: Self)
        ensures
            r == *self,
    {
        match self {
            PortVariant::InBound(port) => PortVariant::InBound(port.clone()),
            PortVariant::InOutBound(port) => PortVariant::InOutBound(port.clone()),
            PortVariant::OutBound(port) => PortVariant::OutBound(port.clone()),
        }
    }
}

} // verus!

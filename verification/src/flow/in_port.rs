//! An incoming flow port.

use vstd::prelude::*;

use crate::flow::{FlowCommons, FlowIn};

verus! {

/// An incoming flow port: so far only its sequence counter.
#[derive(Clone, Copy, Debug, PartialEq, Eq, Structural)]
pub struct FlowingInPort(u32);

impl FlowingInPort {
    /// The port's sequence counter.
    pub closed spec fn spec_value(&self) -> u32 {
        self.0
    }

    /// A port whose counter starts at `value`.
    pub fn new(value: u32) -> (r: Self)
        ensures
            r.spec_value() == value,
    {
        FlowingInPort(value)
    }
}

impl FlowCommons for FlowingInPort {

}

impl FlowIn for FlowingInPort {

}

} // verus!

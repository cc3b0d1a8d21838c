//! An outgoing flow port.

use vstd::prelude::*;

use crate::flow::{FlowCommons, FlowOut};

verus! {

/// An outgoing flow port: so far only its sequence counter.
#[derive(Clone, Copy, Debug, PartialEq, Eq, Structural)]
pub struct FlowingOutPort(u32);

impl FlowingOutPort {
    /// The port's sequence counter.
    pub closed spec fn spec_value(&self) -> u32 {
        self.0
    }

    /// A port whose counter starts at `value`.
    pub fn new(value: u32) -> (r: Self)
        ensures
            r.spec_value() == value,
    {
        FlowingOutPort(value)
    }
}

impl FlowCommons for FlowingOutPort {

}

impl FlowOut for FlowingOutPort {

}

} // verus!

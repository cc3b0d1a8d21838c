//! A flow port that is both incoming and outgoing.

use vstd::prelude::*;

use crate::flow::{FlowCommons, FlowIn, FlowInOut, FlowOut};

verus! {

/// A two-way flow port: so far only its sequence counter.
#[derive(Clone, Copy, Debug, PartialEq, Eq, Structural)]
pub struct FlowingInOutPort(u32);

impl FlowingInOutPort {
    /// The port's sequence counter.
    pub closed spec fn spec_value(&self) -> u32 {
        self.0
    }

    /// A port whose counter starts at `value`.
    pub fn new(value: u32) -> (r: Self)
        ensures
            r.spec_value() == value,
    {
        FlowingInOutPort(value)
    }
}

impl FlowCommons for FlowingInOutPort {

}

impl FlowIn for FlowingInOutPort {

}

impl FlowOut for FlowingInOutPort {

}

impl FlowInOut for FlowingInOutPort {

}

} // verus!

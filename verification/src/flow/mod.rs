//! Flowing ports: placeholders for ports whose values stream through,
//! carrying only a sequence counter so far.

pub mod in_out_port;
pub mod in_port;
pub mod out_port;

use vstd::prelude::*;

verus! {

/// Marks flow port types.
pub(crate) trait FlowCommons {

}

/// Marks incoming flow port types.
pub(crate) trait FlowIn: FlowCommons {

}

/// Marks outgoing flow port types.
pub(crate) trait FlowOut: FlowCommons {

}

/// Marks flow port types that are both incoming and outgoing.
pub(crate) trait FlowInOut: FlowIn + FlowOut {

}

} // verus!

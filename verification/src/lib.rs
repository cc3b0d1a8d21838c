//! Typed data ports that can be wired together.
//!
//! A port is a directional handle (input, output, or both) onto a shared,
//! lockable cell holding a single strongly typed value.  Binding a port to
//! another port makes both alias the same cell, so mutations through one
//! are visible through the other.  Every mutation of a cell advances a
//! wrap-around sequence number, which readers may use to detect changes.

pub mod any_port;
pub mod bind;
pub mod collections;
pub mod error;
pub mod flow;
pub mod port;
pub mod port_description;
pub mod port_provider;
pub mod port_variant;
pub(crate) mod text;

pub use any_port::AnyPortType;
pub use bind::any_port_value::AnyPortValueType;
pub use bind::in_out_port::BoundInOutPort;
pub use bind::in_port::BoundInPort;
pub use bind::out_port::BoundOutPort;
pub use bind::port_value::{PortValue, PortValueReadGuard, PortValueWriteGuard};
pub use bind::sequence_number::SequenceNumber;
pub use bind::{BindCommons, BindIn, BindInOut, BindOut};
pub use collections::port_array::PortArray;
pub use collections::port_list::PortList;
pub use collections::port_map::PortMap;
pub use collections::PortAccessors;
pub use error::Error;
pub use flow::in_out_port::FlowingInOutPort;
pub use flow::in_port::FlowingInPort;
pub use flow::out_port::FlowingOutPort;
pub use port::{InOutPort, InPort, OutPort, Port, PortBase};
pub use port_description::{PortDescription, PortDescriptionData, PortDescriptionProvider};
pub use port_provider::{DynamicPortProvider, PortProvider};
pub use port_variant::PortVariant;

//! The port and cell types stay usable across threads.

use dataports::{
    BoundInOutPort, BoundInPort, BoundOutPort, FlowingInOutPort, FlowingInPort, FlowingOutPort,
    Port, PortArray, PortDescription, PortList, PortMap, PortValue, PortVariant, SequenceNumber,
};

fn is_normal<T: Sized + Send + Sync>() {}

#[test]
fn in_out_port_normal_types() {
    is_normal::<&BoundInOutPort>();
    is_normal::<BoundInOutPort>();
    is_normal::<&FlowingInOutPort>();
    is_normal::<FlowingInOutPort>();
}

#[test]
fn in_port_normal_types() {
    is_normal::<&BoundInPort>();
    is_normal::<BoundInPort>();
    is_normal::<&FlowingInPort>();
    is_normal::<FlowingInPort>();
}

#[test]
fn out_port_normal_types() {
    is_normal::<&BoundOutPort>();
    is_normal::<BoundOutPort>();
    is_normal::<&FlowingOutPort>();
    is_normal::<FlowingOutPort>();
}

#[test]
fn port_value_normal_types() {
    is_normal::<&PortValue<i32>>();
    is_normal::<PortValue<String>>();
}

#[test]
fn sequence_number_normal_types() {
    is_normal::<&SequenceNumber>();
    is_normal::<SequenceNumber>();
}

#[test]
fn internal_methods() {
    let mut sq = SequenceNumber::default();
    assert_eq!(sq.value(), 0);
    sq.increment();
    assert_eq!(sq.value(), 1);
    sq = SequenceNumber::new(u32::MAX - 1);
    sq.increment();
    assert_eq!(sq.value(), u32::MAX);
    sq.increment();
    assert_eq!(sq.value(), 1);
}

#[test]
fn port_array_normal_types() {
    is_normal::<&PortArray<2>>();
    is_normal::<PortArray<4>>();
}

#[test]
fn port_list_normal_types() {
    is_normal::<&PortList>();
    is_normal::<PortList>();
}

#[test]
fn port_map_normal_types() {
    is_normal::<&PortMap>();
    is_normal::<PortMap>();
}

#[test]
fn port_normal_types() {
    is_normal::<Port>();
}

#[test]
fn port_description_normal_types() {
    is_normal::<&PortDescription>();
    is_normal::<PortDescription>();
}

#[test]
fn port_variant_normal_types() {
    is_normal::<&PortVariant>();
    is_normal::<PortVariant>();
}

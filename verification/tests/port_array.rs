//! Building fixed port arrays out of bound ports, and the flowing stubs.

use core::f64::consts::PI;
use std::fmt::Debug;

use dataports::{
    BoundInOutPort, BoundInPort, BoundOutPort, FlowingInOutPort, FlowingInPort, FlowingOutPort,
    PortArray, PortVariant,
};

fn creation_bind<T: Clone + PartialEq + Debug + Send + Sync + 'static>(
    value: T,
) -> PortArray<3> {
    PortArray::new([
        ("inbound".into(), PortVariant::InBound(BoundInPort::with_value(value.clone()))),
        ("outbound".into(), PortVariant::OutBound(BoundOutPort::with_value(value.clone()))),
        ("inoutbound".into(), PortVariant::InOutBound(BoundInOutPort::with_value(value))),
    ])
}

#[test]
fn bound() {
    let _array = creation_bind(true);
    let _array = creation_bind(42);
    let _array = creation_bind(PI);
    let _array = creation_bind("str");
    let _array = creation_bind(String::from("string"));
    let _array = creation_bind(vec![1, 2, 3]);
    let _array = creation_bind(vec!["1", "2", "3"]);
    let _array = creation_bind(vec![String::from("1"), String::from("2"), String::from("3")]);
    let _array = creation_bind(vec![vec![1, 2, 3], vec![4, 5, 6]]);
}

#[test]
fn flowing() {
    let _inflow = FlowingInPort::new(42);
    let _outflow = FlowingOutPort::new(42);
    let _inoutflow = FlowingInOutPort::new(42);
}

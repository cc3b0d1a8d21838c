//! Binding and access through the bound port types.

use std::f64::consts::PI;
use std::fmt::Debug;

use dataports::{
    BindCommons, BindIn, BindInOut, BindOut, BoundInOutPort, BoundInPort, BoundOutPort,
    PortValueReadGuard, PortValueWriteGuard,
};

fn check_binding<T: Clone + PartialEq + Debug + Send + Sync + 'static>(value: T) {
    let mut op = BoundOutPort::empty::<T>();
    let mut iop = BoundInOutPort::empty::<T>();
    let mut ip = BoundInPort::empty::<T>();

    assert!(iop.bind(&op).is_ok());
    assert!(op.bind(&iop).is_ok());
    assert!(op.bind(&ip).is_ok());
    assert!(iop.bind(&ip).is_ok());
    assert!(ip.bind(&iop).is_ok());
    assert!(ip.bind(&op).is_ok());

    assert!(op.set(value.clone()).is_ok());
    assert_eq!(iop.get(), Some(value.clone()));
    assert_eq!(ip.get(), Some(value));
}

#[test]
fn binding() {
    check_binding(true);
    check_binding(42);
    check_binding(PI);
    check_binding("str");
    check_binding(String::from("string"));
    check_binding(vec![1, 2, 3]);
    check_binding(vec!["1", "2", "3"]);
    check_binding(vec![String::from("1"), String::from("2"), String::from("3")]);
    check_binding(vec![vec![1.0, 2.0, 3.0], vec![4.0, 5.0, 6.0]]);
}

fn check_in_get<T: Clone + PartialEq + Debug + Send + Sync + 'static>(value: T) {
    let ip = BoundInPort::with_value(value.clone());
    assert_eq!(ip.get(), Some(value));
}

fn check_in_read<T: Clone + PartialEq + Debug + Send + Sync + 'static>(value: T) {
    let ip = BoundInPort::with_value(value.clone());
    let guard: PortValueReadGuard<T> = ip.read().unwrap();
    assert_eq!(*guard, value);
}

fn check_in_try_read<T: Clone + PartialEq + Debug + Send + Sync + 'static>(value: T) {
    let ip = BoundInPort::with_value(value.clone());
    let guard: PortValueReadGuard<T> = ip.try_read().unwrap();
    assert_eq!(*guard, value);
}

fn check_in_all<T: Clone + PartialEq + Debug + Send + Sync + 'static>(value: T) {
    check_in_get(value.clone());
    check_in_read(value.clone());
    check_in_try_read(value);
}

#[test]
fn in_port_access() {
    check_in_all(true);
    check_in_all(42);
    check_in_all(PI);
    check_in_all("str");
    check_in_all(String::from("string"));
    check_in_all(vec![1, 2, 3]);
    check_in_all(vec!["1", "2", "3"]);
    check_in_all(vec![String::from("1"), String::from("2"), String::from("3")]);
    check_in_all(vec![vec![1.0, 2.0, 3.0], vec![4.0, 5.0, 6.0]]);
}

fn check_out_set<T: Clone + PartialEq + Debug + Send + Sync + 'static>(value: T) {
    let op = BoundOutPort::with_value(value.clone());
    assert!(op.set(value).is_ok());
}

fn check_out_write<T: Clone + PartialEq + Debug + Send + Sync + 'static>(value: T) {
    let op = BoundOutPort::with_value(value.clone());
    let mut guard: PortValueWriteGuard<T> = op.write().unwrap();
    guard.set(value);
}

fn check_out_try_write<T: Clone + PartialEq + Debug + Send + Sync + 'static>(value: T) {
    let op = BoundOutPort::with_value(value.clone());
    let mut guard: PortValueWriteGuard<T> = op.try_write().unwrap();
    guard.set(value);
}

fn check_out_all<T: Clone + PartialEq + Debug + Send + Sync + 'static>(value: T) {
    check_out_set(value.clone());
    check_out_write(value.clone());
    check_out_try_write(value);
}

#[test]
fn out_port_access() {
    check_out_all(true);
    check_out_all(42);
    check_out_all(PI);
    check_out_all("str");
    check_out_all(String::from("string"));
    check_out_all(vec![1, 2, 3]);
    check_out_all(vec!["1", "2", "3"]);
    check_out_all(vec![String::from("1"), String::from("2"), String::from("3")]);
    check_out_all(vec![vec![1.0, 2.0, 3.0], vec![4.0, 5.0, 6.0]]);
}

fn check_inout_take_replace<T: Clone + PartialEq + Debug + Send + Sync + 'static>(
    value: T,
    value2: T,
) {
    let iop = BoundInOutPort::with_value(value.clone());
    assert_eq!(iop.replace(value2.clone()), Some(value));
    assert_eq!(iop.take(), Some(value2));
}

fn check_inout_all<T: Clone + PartialEq + Debug + Send + Sync + 'static>(value: T, value2: T) {
    let iop = BoundInOutPort::with_value(value.clone());
    assert_eq!(iop.get(), Some(value.clone()));
    {
        let guard: PortValueReadGuard<T> = iop.read().unwrap();
        assert_eq!(*guard, value);
    }
    {
        let guard: PortValueReadGuard<T> = iop.try_read().unwrap();
        assert_eq!(*guard, value);
    }
    assert!(iop.set(value.clone()).is_ok());
    {
        let mut guard: PortValueWriteGuard<T> = iop.write().unwrap();
        guard.set(value.clone());
    }
    {
        let mut guard: PortValueWriteGuard<T> = iop.try_write().unwrap();
        guard.set(value.clone());
    }
    check_inout_take_replace(value, value2);
}

#[test]
fn in_out_port_access() {
    check_inout_all(true, false);
    check_inout_all(42, 24);
    check_inout_all(PI, PI / 2.0);
    check_inout_all("str", "");
    check_inout_all(String::from("string"), String::from(""));
    check_inout_all(vec![1, 2, 3], vec![3, 2, 1]);
    check_inout_all(vec!["1", "2", "3"], vec!["3", "2", "1"]);
    check_inout_all(
        vec![String::from("1"), String::from("2"), String::from("3")],
        vec![String::from("3"), String::from("2"), String::from("1")],
    );
    check_inout_all(
        vec![vec![1.0, 2.0, 3.0], vec![4.0, 5.0, 6.0]],
        vec![vec![4.0, 5.0, 6.0], vec![1.0, 2.0, 3.0]],
    );
}

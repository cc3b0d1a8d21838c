//! Providers of statically declared port lists.

use vstd::prelude::*;

use crate::error::Error;
use crate::port::Port;
use crate::text::str_eq;

verus! {

/// Something that declares a list of named ports.  Only
/// [`Self::portlist`] has to be supplied; the lookups come with it.
pub trait PortProvider {
    /// The declared ports.
    fn portlist(&self) -> &[Port];

    /// Whether a port named `port_name` is declared.
    fn has_port(&self, port_name: &str) -> bool {
        let list = self.portlist();
        let mut i: usize = 0;
        while i < list.len()
            invariant
                i <= list@.len(),
            decreases list@.len() - i,
        {
            if str_eq(list[i].name(), port_name) {
                return true;
            }
            i = i + 1;
        }
        false
    }

    /// The first declared port named `port_name`, if any.
    fn port(&self, port_name: &str) -> Option<&Port> {
        let list = self.portlist();
        let mut i: usize = 0;
        while i < list.len()
            invariant
                i <= list@.len(),
            decreases list@.len() - i,
        {
            if str_eq(list[i].name(), port_name) {
                return Some(&list[i]);
            }
            i = i + 1;
        }
        None
    }
}

/// A port provider whose set of ports can change at run time.
pub trait DynamicPortProvider: PortProvider {
    /// Adds a port holding `value` under `key`.
    fn add<T>(&mut self, key: &str, value: T) -> Result<(), Error>;

    /// Removes the port under `key`, returning its value.
    fn remove<T>(&mut self, key: &str) -> Result<T, Error>;
}

} // verus!

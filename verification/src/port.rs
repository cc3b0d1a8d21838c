//! Minimal port descriptions and accessor traits for static port lists.

use vstd::prelude::*;

use crate::error::Error;

verus! {

/// What every port with an updatable value reports.
pub trait PortBase {
    /// How often the port's value has been updated.
    fn num_updates(&self) -> Result<usize, Error>;
}

/// A port whose value can be read.
pub trait InPort<T>: PortBase {
    /// A reference to the port's value.
    fn as_ref(&self) -> Result<&T, Error>;

    /// A copy of the port's value.
    fn get(&self) -> Result<T, Error>;
}

/// A port whose value can be written.
pub trait OutPort<T>: PortBase {
    /// Sets the port's value, returning the previous one.
    fn set(&mut self, value: T) -> Result<Option<T>, Error>;
}

/// A port whose value can be read and written.
pub trait InOutPort<T>: InPort<T> + OutPort<T> {

}

/// A port named at declaration time, tagged with its direction.
pub enum Port {
    In { name: &'static str },
    InOut { name: &'static str },
    Out { name: &'static str },
}

impl Port {
    /// The name this port was declared under.
    pub open spec fn spec_name(&self) -> Seq<char> {
        match self {
            Port::In { name } => name@,
            Port::InOut { name } => name@,
            Port::Out { name } => name@,
        }
    }

    /// The name this port was declared under.
    pub fn name(&self) -> (r: &'static str)
        ensures
            r@ == self.spec_name(),
    {
        match self {
            Port::In { name } => name,
            Port::InOut { name } => name,
            Port::Out { name } => name,
        }
    }
}

} // verus!

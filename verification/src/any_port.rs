//! The trait that lets heterogeneous ports be bound to one another.

use vstd::prelude::*;

use crate::bind::storage::SharedCell;

verus! {

/// A port of any direction, seen as a holder of one storage cell.
/// Binding works against this trait, so a port can be bound to any other
/// port, whatever its direction.
pub trait AnyPortType: Sized {
    /// The storage cell this port currently aliases.
    spec fn spec_cell(&self) -> SharedCell;

    /// A fresh handle to this port's cell.
    fn bound_cell(&self) -> (r: SharedCell)
        ensures
            r == self.spec_cell(),
    ;
}

} // verus!

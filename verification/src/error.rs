//! The errors that port operations report.

use vstd::prelude::*;

verus! {

/// Everything that can go wrong when accessing, binding or collecting ports.
#[derive(Debug, PartialEq, Eq)]
#[non_exhaustive]
pub enum Error {
    /// A non-blocking acquisition could not obtain the lock on a cell.
    IsLocked,
    /// The cell holds no value yet.
    NoValueSet,
    /// The type stored in the cell is not the type the caller asked for.
    WrongDataType,
    /// The requested operation is not available for the port's direction.
    WrongPortType,
    /// No port with this name is in the collection.
    NotFound { name: String },
    /// A port with this name is already in the collection.
    AlreadyInCollection { name: String },
}

} // verus!

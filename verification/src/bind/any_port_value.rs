//! The bound on what a port's cell may hold.

use vstd::prelude::*;

verus! {

/// Marks the types a port can carry.  A cell is shared between threads and
/// kept behind a type-erased lock, so its content must be sendable, sharable
/// and free of borrowed data.
pub trait AnyPortValueType: Send + Sync + 'static {

}

impl<T: Send + Sync + 'static> AnyPortValueType for T {

}

} // verus!

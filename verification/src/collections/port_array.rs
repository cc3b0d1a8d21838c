//! A fixed-size collection of ports.

use vstd::prelude::*;

use crate::any_port::AnyPortType;
use crate::collections::{
    connect_in_entries, find_index, lookup, spec_lookup, PortAccessors, PortProvider,
};
use crate::error::Error;
use crate::port_variant::PortVariant;

verus! {

/// Relies on `Vec::from`: the vector holds exactly the array's elements, in
/// order.
#[verifier::external_body]
fn array_to_vec<T, const S: usize>(elements: [T; S]) -> (r: Vec<T>)
    ensures
        r@ == elements@,
{
    Vec::from(elements)
}

/// A fixed array of `S` named ports, in the order given at construction.
/// Unlike [`PortList`](crate::collections::port_list::PortList) and
/// [`PortMap`](crate::collections::port_map::PortMap) it cannot grow, and
/// names need not be unique: lookups answer with the first entry under a
/// name.
pub struct PortArray<const S: usize> {
    entries: Vec<(String, PortVariant)>,
}

impl<const S: usize> PortArray<S> {
    /// An array holding exactly `ports`, in order.
    pub fn new(ports: [(String, PortVariant); S]) -> (r: Self)
        ensures
            r.spec_entries() == ports@,
    {
        PortArray { entries: array_to_vec(ports) }
    }

    /// Connects the port named `name` of this array to the port named
    /// `other_name` of `other_provider`: this array's port is rebound to the
    /// other port's cell, the other provider is never changed.  Fails with
    /// [`Error::NotFound`] when either name is missing and with
    /// [`Error::WrongDataType`] when the two cells' type tags differ; on any
    /// failure this array is left exactly as it was.
    pub fn connect_to<P: PortProvider>(
        &mut self,
        name: &str,
        other_provider: &P,
        other_name: &str,
    ) -> (r: Result<(), Error>)
        ensures
            r is Err ==> final(self).spec_entries() == old(self).spec_entries(),
            spec_lookup(old(self).spec_entries(), name@) is None ==> (r matches Err(
                Error::NotFound { name: n },
            ) && n@ == name@),
            spec_lookup(old(self).spec_entries(), name@) is Some && spec_lookup(
                other_provider.spec_entries(),
                other_name@,
            ) is None ==> (r matches Err(Error::NotFound { name: n }) && n@ == other_name@),
            r matches Err(Error::NotFound { name: n }) ==> spec_lookup(
                old(self).spec_entries(),
                name@,
            ) is None || spec_lookup(other_provider.spec_entries(), other_name@) is None,
            r is Ok <==> (spec_lookup(old(self).spec_entries(), name@) matches Some(p)
                && spec_lookup(other_provider.spec_entries(), other_name@) matches Some(q)
                && crate::bind::storage::cell_tag(p.spec_cell())
                == crate::bind::storage::cell_tag(q.spec_cell())),
            r is Ok ==> ({
                let before = old(self).spec_entries();
                let after = final(self).spec_entries();
                exists|i: int|
                    {
                        &&& 0 <= i < before.len()
                        &&& before[i].0@ == name@
                        &&& after.len() == before.len()
                        &&& (forall|j: int|
                            0 <= j < before.len() && j != i ==> after[j] == before[j])
                        &&& after[i].0 == before[i].0
                        &&& (spec_lookup(other_provider.spec_entries(), other_name@)
                            matches Some(q) && after[i].1.spec_cell() == q.spec_cell())
                        &&& (after[i].1 is InBound) == (before[i].1 is InBound)
                        &&& (after[i].1 is InOutBound) == (before[i].1 is InOutBound)
                        &&& (after[i].1 is OutBound) == (before[i].1 is OutBound)
                        &&& spec_lookup(after, name@) == Some(after[i].1)
                    }
            }),
    {
        if find_index(&self.entries, name).is_none() {
            return Err(Error::NotFound { name: name.to_owned() });
        }
        let other_port = match other_provider.find(other_name) {
            Some(p) => p,
            None => {
                return Err(Error::NotFound { name: other_name.to_owned() });
            },
        };
        connect_in_entries(&mut self.entries, name, other_port)
    }
}

impl<const S: usize> PortProvider for PortArray<S> {
    closed spec fn spec_entries(&self) -> Seq<(String, PortVariant)> {
        self.entries@
    }

    fn find(&self, name: &str) -> Option<&PortVariant> {
        lookup(&self.entries, name)
    }

    fn find_mut(&mut self, name: &str) -> Option<usize> {
        find_index(&self.entries, name)
    }
}

impl<const S: usize> PortAccessors for PortArray<S> {

}

} // verus!

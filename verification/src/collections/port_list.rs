//! An extendable, unsorted collection of ports.

use vstd::prelude::*;

use crate::any_port::AnyPortType;
use crate::collections::{
    connect_in_entries, find_index, lemma_names_unique_push, lookup, names_unique, spec_lookup,
    PortAccessors, PortProvider,
};
use crate::error::Error;
use crate::port_variant::PortVariant;

verus! {

/// An extendable list of named ports, kept in insertion order.  Names are
/// unique: adding a port under a name that is already present is rejected.
pub struct PortList {
    entries: Vec<(String, PortVariant)>,
}

impl PortList {
    /// A list holding no ports.
    pub fn new() -> (r: Self)
        ensures
            r.spec_entries() =~= Seq::<(String, PortVariant)>::empty(),
            names_unique(r.spec_entries()),
    {
        PortList { entries: Vec::new() }
    }

    /// Appends `port` under `name`.  Fails with [`Error::AlreadyInCollection`]
    /// when an entry named `name` is already present, in which case the list
    /// is left exactly as it was.
    pub fn add(&mut self, name: &str, port: PortVariant) -> (r: Result<(), Error>)
        ensures
            r is Ok <==> spec_lookup(old(self).spec_entries(), name@) is None,
            spec_lookup(old(self).spec_entries(), name@) is Some <==> (r matches Err(
                Error::AlreadyInCollection { name: n },
            ) && n@ == name@),
            r is Err ==> final(self).spec_entries() == old(self).spec_entries(),
            r is Ok ==> {
                let entries = final(self).spec_entries();
                &&& entries.len() == old(self).spec_entries().len() + 1
                &&& entries.drop_last() == old(self).spec_entries()
                &&& entries.last().0@ == name@
                &&& entries.last().1 == port
            },
            names_unique(old(self).spec_entries()) ==> names_unique(final(self).spec_entries()),
    {
        match find_index(&self.entries, name) {
            Some(_) => Err(Error::AlreadyInCollection { name: name.to_owned() }),
            None => {
                let ghost before = self.entries@;
                self.entries.push((name.to_owned(), port));
                proof {
                    if names_unique(before) {
                        let entry = self.entries@.last();
                        assert(self.entries@ =~= before.push(entry));
                        lemma_names_unique_push(before, entry);
                    }
                }
                Ok(())
            },
        }
    }

    /// Connects the port named `name` of this list to the port named
    /// `other_name` of `other_provider`: this list's port is rebound to the
    /// other port's cell, the other provider is never changed.  Fails with
    /// [`Error::NotFound`] when either name is missing and with
    /// [`Error::WrongDataType`] when the two cells' type tags differ; on any
    /// failure this list is left exactly as it was.
    pub fn connect_to<P: PortProvider>(
        &mut self,
        name: &str,
        other_provider: &P,
        other_name: &str,
    ) -> (r: Result<(), Error>)
        ensures
            r is Err ==> final(self).spec_entries() == old(self).spec_entries(),
            spec_lookup(old(self).spec_entries(), name@) is None ==> (r matches Err(
                Error::NotFound { name: n },
            ) && n@ == name@),
            spec_lookup(old(self).spec_entries(), name@) is Some && spec_lookup(
                other_provider.spec_entries(),
                other_name@,
            ) is None ==> (r matches Err(Error::NotFound { name: n }) && n@ == other_name@),
            r matches Err(Error::NotFound { name: n }) ==> spec_lookup(
                old(self).spec_entries(),
                name@,
            ) is None || spec_lookup(other_provider.spec_entries(), other_name@) is None,
            r is Ok <==> (spec_lookup(old(self).spec_entries(), name@) matches Some(p)
                && spec_lookup(other_provider.spec_entries(), other_name@) matches Some(q)
                && crate::bind::storage::cell_tag(p.spec_cell())
                == crate::bind::storage::cell_tag(q.spec_cell())),
            r is Ok ==> ({
                let before = old(self).spec_entries();
                let after = final(self).spec_entries();
                exists|i: int|
                    {
                        &&& 0 <= i < before.len()
                        &&& before[i].0@ == name@
                        &&& after.len() == before.len()
                        &&& (forall|j: int|
                            0 <= j < before.len() && j != i ==> after[j] == before[j])
                        &&& after[i].0 == before[i].0
                        &&& (spec_lookup(other_provider.spec_entries(), other_name@)
                            matches Some(q) && after[i].1.spec_cell() == q.spec_cell())
                        &&& (after[i].1 is InBound) == (before[i].1 is InBound)
                        &&& (after[i].1 is InOutBound) == (before[i].1 is InOutBound)
                        &&& (after[i].1 is OutBound) == (before[i].1 is OutBound)
                        &&& spec_lookup(after, name@) == Some(after[i].1)
                    }
            }),
            names_unique(old(self).spec_entries()) ==> names_unique(final(self).spec_entries()),
    {
        if find_index(&self.entries, name).is_none() {
            return Err(Error::NotFound { name: name.to_owned() });
        }
        let other_port = match other_provider.find(other_name) {
            Some(p) => p,
            None => {
                return Err(Error::NotFound { name: other_name.to_owned() });
            },
        };
        connect_in_entries(&mut self.entries, name, other_port)
    }
}

impl PortProvider for PortList {
    closed spec fn spec_entries(&self) -> Seq<(String, PortVariant)> {
        self.entries@
    }

    fn find(&self, name: &str) -> Option<&PortVariant> {
        lookup(&self.entries, name)
    }

    fn find_mut(&mut self, name: &str) -> Option<usize> {
        find_index(&self.entries, name)
    }
}

impl PortAccessors for PortList {

}

} // verus!

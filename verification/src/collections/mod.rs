//! Name-indexed collections of ports.

pub mod port_array;
pub mod port_list;
pub mod port_map;

use vstd::prelude::*;

use crate::any_port::AnyPortType;
use crate::bind::any_port_value::AnyPortValueType;
use crate::bind::port_value::{PortValueReadGuard, PortValueWriteGuard};
use crate::bind::storage::cell_tag;
use crate::bind::{BindIn, BindInOut, BindOut};
use crate::error::Error;
use crate::port_variant::PortVariant;
use crate::text::str_eq;

verus! {

/// The port under the first entry carrying `name`, if any.
pub open spec fn spec_lookup(entries: Seq<(String, PortVariant)>, name: Seq<char>) -> Option<
    PortVariant,
>
    decreases entries.len(),
{
    if entries.len() == 0 {
        None
    } else if entries[0].0@ == name {
        Some(entries[0].1)
    } else {
        spec_lookup(entries.skip(1), name)
    }
}

/// When position `i` holds the first entry named `name`, the lookup yields
/// that entry's port.
pub proof fn lemma_lookup_first_match(
    entries: Seq<(String, PortVariant)>,
    name: Seq<char>,
    i: int,
)
    requires
        0 <= i < entries.len(),
        entries[i].0@ == name,
        forall|j: int| 0 <= j < i ==> #[trigger] entries[j].0@ != name,
    ensures
        spec_lookup(entries, name) == Some(entries[i].1),
    decreases i,
{
    if i > 0 {
        lemma_lookup_first_match(entries.skip(1), name, i - 1);
    }
}

/// When no entry carries `name`, the lookup yields nothing.
pub proof fn lemma_lookup_no_match(entries: Seq<(String, PortVariant)>, name: Seq<char>)
    requires
        forall|j: int| 0 <= j < entries.len() ==> #[trigger] entries[j].0@ != name,
    ensures
        spec_lookup(entries, name) is None,
    decreases entries.len(),
{
    if entries.len() > 0 {
        lemma_lookup_no_match(entries.skip(1), name);
    }
}

/// When the lookup yields nothing, no entry carries `name`.
pub proof fn lemma_no_lookup_no_match(entries: Seq<(String, PortVariant)>, name: Seq<char>)
    requires
        spec_lookup(entries, name) is None,
    ensures
        forall|j: int| 0 <= j < entries.len() ==> #[trigger] entries[j].0@ != name,
    decreases entries.len(),
{
    if entries.len() > 0 {
        lemma_no_lookup_no_match(entries.skip(1), name);
        assert forall|j: int| 0 <= j < entries.len() implies #[trigger] entries[j].0@ != name by {
            if j > 0 {
                assert(entries.skip(1)[j - 1] == entries[j]);
            }
        }
    }
}

/// The position of the first entry carrying `name`, if any.
pub(crate) fn find_index(entries: &Vec<(String, PortVariant)>, name: &str) -> (r: Option<usize>)
    ensures
        match r {
            Some(i) => 0 <= i < entries@.len() && entries@[i as int].0@ == name@ && (forall|j: int|
                0 <= j < i ==> #[trigger] entries@[j].0@ != name@) && spec_lookup(
                entries@,
                name@,
            ) == Some(entries@[i as int].1),
            None => spec_lookup(entries@, name@) is None,
        },
{
    let mut i: usize = 0;
    while i < entries.len()
        invariant
            0 <= i <= entries@.len(),
            forall|j: int| 0 <= j < i ==> #[trigger] entries@[j].0@ != name@,
        decreases entries@.len() - i,
    {
        if str_eq(entries[i].0.as_str(), name) {
            proof {
                lemma_lookup_first_match(entries@, name@, i as int);
            }
            return Some(i);
        }
        i = i + 1;
    }
    proof {
        lemma_lookup_no_match(entries@, name@);
    }
    None
}

/// A reference to the port under the first entry carrying `name`, if any.
pub(crate) fn lookup<'a>(entries: &'a Vec<(String, PortVariant)>, name: &str) -> (r: Option<
    &'a PortVariant,
>)
    ensures
        match r {
            Some(p) => spec_lookup(entries@, name@) == Some(*p),
            None => spec_lookup(entries@, name@) is None,
        },
{
    match find_index(entries, name) {
        Some(i) => Some(&entries[i].1),
        None => None,
    }
}

/// Rebinds the first port named `name` to `other_port`'s cell.
///
/// Fails with [`Error::NotFound`] when no entry carries `name`, and with
/// [`Error::WrongDataType`] when the two cells' type tags differ; in both
/// cases the entries are left exactly as they were.  On success only the
/// named entry changes: it keeps its name and direction and aliases
/// `other_port`'s cell from now on.
pub(crate) fn connect_in_entries(
    entries: &mut Vec<(String, PortVariant)>,
    name: &str,
    other_port: &PortVariant,
) -> (r: Result<(), Error>)
    ensures
        r is Ok <==> (spec_lookup(old(entries)@, name@) matches Some(p) && cell_tag(
            p.spec_cell(),
        ) == cell_tag(other_port.spec_cell())),
        r is Err ==> final(entries)@ == old(entries)@,
        spec_lookup(old(entries)@, name@) is None <==> (r matches Err(Error::NotFound { name: n })
            && n@ == name@),
        spec_lookup(old(entries)@, name@) matches Some(p) && cell_tag(p.spec_cell()) != cell_tag(
            other_port.spec_cell(),
        ) ==> r == Err::<(), Error>(Error::WrongDataType),
        r is Ok ==> exists|i: int|
            {
                &&& 0 <= i < old(entries)@.len()
                &&& old(entries)@[i].0@ == name@
                &&& final(entries)@.len() == old(entries)@.len()
                &&& (forall|j: int|
                    0 <= j < old(entries)@.len() && j != i ==> final(entries)@[j] == old(
                        entries,
                    )@[j])
                &&& final(entries)@[i].0 == old(entries)@[i].0
                &&& final(entries)@[i].1.spec_cell() == other_port.spec_cell()
                &&& (final(entries)@[i].1 is InBound) == (old(entries)@[i].1 is InBound)
                &&& (final(entries)@[i].1 is InOutBound) == (old(entries)@[i].1 is InOutBound)
                &&& (final(entries)@[i].1 is OutBound) == (old(entries)@[i].1 is OutBound)
                &&& spec_lookup(final(entries)@, name@) == Some(final(entries)@[i].1)
            },
        names_unique(old(entries)@) ==> names_unique(final(entries)@),
{
    let idx = match find_index(entries, name) {
        Some(i) => i,
        None => {
            return Err(Error::NotFound { name: name.to_owned() });
        },
    };
    let ghost before = entries@;
    let mut entry = entries.remove(idx);
    let result = entry.1.connect_to(other_port);
    entries.insert(idx, entry);
    proof {
        assert(entries@ =~= before.update(idx as int, entries@[idx as int]));
        if result is Err {
            assert(entries@ =~= before);
        } else {
            lemma_lookup_first_match(entries@, name@, idx as int);
            if names_unique(before) {
                assert forall|k: int|
                    0 <= k < before.len() implies before[k].0@ == #[trigger] entries@[k].0@ by {}
                lemma_names_unique_pointwise(before, entries@);
            }
        }
    }
    result
}

/// No two entries carry the same name.
pub open spec fn names_unique(entries: Seq<(String, PortVariant)>) -> bool {
    forall|i: int, j: int|
        0 <= i < j < entries.len() ==> #[trigger] entries[i].0@ != #[trigger] entries[j].0@
}

/// Entries whose names agree position by position are unique together.
pub proof fn lemma_names_unique_pointwise(
    a: Seq<(String, PortVariant)>,
    b: Seq<(String, PortVariant)>,
)
    requires
        a.len() == b.len(),
        forall|k: int| 0 <= k < a.len() ==> a[k].0@ == #[trigger] b[k].0@,
        names_unique(a),
    ensures
        names_unique(b),
{
    assert forall|i: int, j: int|
        0 <= i < j < b.len() implies #[trigger] b[i].0@ != #[trigger] b[j].0@ by {
        assert(a[i].0@ != a[j].0@);
    }
}

/// Appending an entry whose name is not yet present keeps the names unique.
pub proof fn lemma_names_unique_push(
    entries: Seq<(String, PortVariant)>,
    entry: (String, PortVariant),
)
    requires
        names_unique(entries),
        spec_lookup(entries, entry.0@) is None,
    ensures
        names_unique(entries.push(entry)),
{
    lemma_no_lookup_no_match(entries, entry.0@);
    let pushed = entries.push(entry);
    assert forall|i: int, j: int|
        0 <= i < j < pushed.len() implies #[trigger] pushed[i].0@ != #[trigger] pushed[j].0@ by {
        if j < entries.len() {
            assert(entries[i].0@ != entries[j].0@);
        } else {
            assert(entries[i].0@ != entry.0@);
        }
    }
}

/// Something that provides ports under unique names.
pub trait PortProvider: Sized {
    /// The named ports this provider holds, in order.
    spec fn spec_entries(&self) -> Seq<(String, PortVariant)>;

    /// A reference to the port under the first entry carrying `name`, if
    /// any.
    fn find(&self, name: &str) -> (r: Option<&PortVariant>)
        ensures
            match r {
                Some(p) => spec_lookup(self.spec_entries(), name@) == Some(*p),
                None => spec_lookup(self.spec_entries(), name@) is None,
            },
    ;

    /// The position of the first entry carrying `name`, if any, for a
    /// subsequent mutation.
    fn find_mut(&mut self, name: &str) -> (r: Option<usize>)
        ensures
            *final(self) == *old(self),
            match r {
                Some(i) => 0 <= i < old(self).spec_entries().len() && old(
                    self,
                ).spec_entries()[i as int].0@ == name@,
                None => spec_lookup(old(self).spec_entries(), name@) is None,
            },
    ;

}

/// Name-keyed access to the ports of a provider, dispatching on each port's
/// direction and rejecting direction-incompatible operations with
/// [`Error::WrongPortType`].
pub trait PortAccessors: PortProvider {
    /// A copy of the value of the port named `name`.  Requires a readable
    /// port: input and input/output ports answer, output ports are rejected.
    fn get<T: AnyPortValueType + Clone>(&self, name: &str) -> (r: Result<Option<T>, Error>)
        ensures
            spec_lookup(self.spec_entries(), name@) is None <==> (r matches Err(
                Error::NotFound { name: n },
            ) && n@ == name@),
            spec_lookup(self.spec_entries(), name@) matches Some(p) ==> if p is OutBound {
                r == Err::<Option<T>, Error>(Error::WrongPortType)
            } else {
                r is Ok
            },
    {
        match self.find(name) {
            Some(port) => match port {
                PortVariant::InBound(p) => Ok(p.get()),
                PortVariant::InOutBound(p) => Ok(p.get()),
                PortVariant::OutBound(_) => Err(Error::WrongPortType),
            },
            None => Err(Error::NotFound { name: name.to_owned() }),
        }
    }

    /// A read guard on the value of the port named `name`, blocking until
    /// the lock is free.  Requires a readable port.
    fn read<T: AnyPortValueType>(&self, name: &str) -> (r: Result<PortValueReadGuard<T>, Error>)
        ensures
            spec_lookup(self.spec_entries(), name@) is None <==> (r matches Err(
                Error::NotFound { name: n },
            ) && n@ == name@),
            spec_lookup(self.spec_entries(), name@) matches Some(p) ==> if p is OutBound {
                r matches Err(e) && e == Error::WrongPortType
            } else {
                r is Ok || (r matches Err(e) && (e == Error::WrongDataType || e
                    == Error::NoValueSet))
            },
            !(r matches Err(Error::IsLocked)),
    {
        match self.find(name) {
            Some(port) => match port {
                PortVariant::InBound(p) => p.read(),
                PortVariant::InOutBound(p) => p.read(),
                PortVariant::OutBound(_) => Err(Error::WrongPortType),
            },
            None => Err(Error::NotFound { name: name.to_owned() }),
        }
    }

    /// A read guard on the value of the port named `name`, failing with
    /// [`Error::IsLocked`] instead of blocking when a writer holds the lock.
    fn try_read<T: AnyPortValueType>(&self, name: &str) -> (r: Result<
        PortValueReadGuard<T>,
        Error,
    >)
        ensures
            spec_lookup(self.spec_entries(), name@) is None <==> (r matches Err(
                Error::NotFound { name: n },
            ) && n@ == name@),
            spec_lookup(self.spec_entries(), name@) matches Some(p) ==> if p is OutBound {
                r matches Err(e) && e == Error::WrongPortType
            } else {
                r is Ok || (r matches Err(e) && (e == Error::WrongDataType || e == Error::NoValueSet
                    || e == Error::IsLocked))
            },
    {
        match self.find(name) {
            Some(port) => match port {
                PortVariant::InBound(p) => p.try_read(),
                PortVariant::InOutBound(p) => p.try_read(),
                PortVariant::OutBound(_) => Err(Error::WrongPortType),
            },
            None => Err(Error::NotFound { name: name.to_owned() }),
        }
    }

    /// Puts `value` into the port named `name` and returns the previous
    /// value.  Requires an input/output port; one-way ports are rejected.
    /// The collection itself never changes.
    fn replace<T: AnyPortValueType>(&mut self, name: &str, value: T) -> (r: Result<
        Option<T>,
        Error,
    >)
        ensures
            *final(self) == *old(self),
            spec_lookup(old(self).spec_entries(), name@) is None <==> (r matches Err(
                Error::NotFound { name: n },
            ) && n@ == name@),
            spec_lookup(old(self).spec_entries(), name@) matches Some(p) ==> if p is InOutBound {
                r is Ok
            } else {
                r == Err::<Option<T>, Error>(Error::WrongPortType)
            },
    {
        match self.find(name) {
            Some(port) => match port {
                PortVariant::InOutBound(p) => Ok(p.replace(value)),
                PortVariant::InBound(_) => Err(Error::WrongPortType),
                PortVariant::OutBound(_) => Err(Error::WrongPortType),
            },
            None => Err(Error::NotFound { name: name.to_owned() }),
        }
    }

    /// Removes and returns the value of the port named `name`, leaving its
    /// cell empty.  Requires an input/output port.  The collection itself
    /// never changes.
    fn take<T: AnyPortValueType>(&mut self, name: &str) -> (r: Result<Option<T>, Error>)
        ensures
            *final(self) == *old(self),
            spec_lookup(old(self).spec_entries(), name@) is None <==> (r matches Err(
                Error::NotFound { name: n },
            ) && n@ == name@),
            spec_lookup(old(self).spec_entries(), name@) matches Some(p) ==> if p is InOutBound {
                r is Ok
            } else {
                r == Err::<Option<T>, Error>(Error::WrongPortType)
            },
    {
        match self.find(name) {
            Some(port) => match port {
                PortVariant::InOutBound(p) => Ok(p.take()),
                PortVariant::InBound(_) => Err(Error::WrongPortType),
                PortVariant::OutBound(_) => Err(Error::WrongPortType),
            },
            None => Err(Error::NotFound { name: name.to_owned() }),
        }
    }

    /// Overwrites the value of the port named `name`, even when its cell is
    /// still empty.  Requires a writeable port: output and input/output ports
    /// answer, input ports are rejected.  The collection itself never
    /// changes.
    fn set<T: AnyPortValueType>(&mut self, name: &str, value: T) -> (r: Result<(), Error>)
        ensures
            *final(self) == *old(self),
            spec_lookup(old(self).spec_entries(), name@) is None <==> (r matches Err(
                Error::NotFound { name: n },
            ) && n@ == name@),
            spec_lookup(old(self).spec_entries(), name@) matches Some(p) ==> if p is InBound {
                r == Err::<(), Error>(Error::WrongPortType)
            } else {
                r is Ok || r == Err::<(), Error>(Error::WrongDataType)
            },
    {
        match self.find(name) {
            Some(port) => match port {
                PortVariant::OutBound(p) => p.set(value),
                PortVariant::InOutBound(p) => p.set(value),
                PortVariant::InBound(_) => Err(Error::WrongPortType),
            },
            None => Err(Error::NotFound { name: name.to_owned() }),
        }
    }

    /// A write guard on the value of the port named `name`, blocking until
    /// the lock is free.  Requires a writeable port.  The collection itself
    /// never changes.
    fn write<T: AnyPortValueType>(&mut self, name: &str) -> (r: Result<
        PortValueWriteGuard<T>,
        Error,
    >)
        ensures
            *final(self) == *old(self),
            spec_lookup(old(self).spec_entries(), name@) is None <==> (r matches Err(
                Error::NotFound { name: n },
            ) && n@ == name@),
            spec_lookup(old(self).spec_entries(), name@) matches Some(p) ==> if p is InBound {
                r matches Err(e) && e == Error::WrongPortType
            } else {
                r is Ok || (r matches Err(e) && (e == Error::WrongDataType || e
                    == Error::NoValueSet))
            },
            !(r matches Err(Error::IsLocked)),
            r matches Ok(g) ==> !g.spec_modified(),
    {
        match self.find(name) {
            Some(port) => match port {
                PortVariant::OutBound(p) => p.write(),
                PortVariant::InOutBound(p) => p.write(),
                PortVariant::InBound(_) => Err(Error::WrongPortType),
            },
            None => Err(Error::NotFound { name: name.to_owned() }),
        }
    }

    /// A write guard on the value of the port named `name`, failing with
    /// [`Error::IsLocked`] instead of blocking when anybody holds the lock.
    fn try_write<T: AnyPortValueType>(&mut self, name: &str) -> (r: Result<
        PortValueWriteGuard<T>,
        Error,
    >)
        ensures
            *final(self) == *old(self),
            spec_lookup(old(self).spec_entries(), name@) is None <==> (r matches Err(
                Error::NotFound { name: n },
            ) && n@ == name@),
            spec_lookup(old(self).spec_entries(), name@) matches Some(p) ==> if p is InBound {
                r matches Err(e) && e == Error::WrongPortType
            } else {
                r is Ok || (r matches Err(e) && (e == Error::WrongDataType || e == Error::NoValueSet
                    || e == Error::IsLocked))
            },
            r matches Ok(g) ==> !g.spec_modified(),
    {
        match self.find(name) {
            Some(port) => match port {
                PortVariant::OutBound(p) => p.try_write(),
                PortVariant::InOutBound(p) => p.try_write(),
                PortVariant::InBound(_) => Err(Error::WrongPortType),
            },
            None => Err(Error::NotFound { name: name.to_owned() }),
        }
    }
}

} // verus!

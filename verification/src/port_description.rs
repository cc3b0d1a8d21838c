//! Static descriptions of ports: name, default value and comment.

use vstd::prelude::*;

use crate::text::str_eq;

verus! {

/// The description of one port: its identifying name, an optional default
/// value and an optional comment on its purpose, all given at declaration
/// time.
pub struct PortDescriptionData {
    name: &'static str,
    default: Option<&'static str>,
    comment: Option<&'static str>,
}

impl PortDescriptionData {
    /// The port's identifying name.
    pub closed spec fn spec_name(&self) -> &'static str {
        self.name
    }

    /// The port's default value, if one was declared.
    pub closed spec fn spec_default(&self) -> Option<&'static str> {
        self.default
    }

    /// The comment on the port's purpose, if one was declared.
    pub closed spec fn spec_comment(&self) -> Option<&'static str> {
        self.comment
    }

    /// A description of the port `name` with the given default value and
    /// comment.
    pub fn new(
        name: &'static str,
        default: Option<&'static str>,
        comment: Option<&'static str>,
    ) -> (r: Self)
        ensures
            r.spec_name() == name,
            r.spec_default() == default,
            r.spec_comment() == comment,
    {
        PortDescriptionData { name, default, comment }
    }
}

/// A port description tagged with the port's direction.
pub enum PortDescription {
    In(PortDescriptionData),
    InOut(PortDescriptionData),
    Out(PortDescriptionData),
}

impl PortDescription {
    /// The description behind the direction tag.
    pub open spec fn spec_data(&self) -> PortDescriptionData {
        match self {
            PortDescription::In(inner) => *inner,
            PortDescription::InOut(inner) => *inner,
            PortDescription::Out(inner) => *inner,
        }
    }

    /// The comment on the port's purpose, if one was declared.
    pub fn comment(&self) -> (r: Option<&'static str>)
        ensures
            r == self.spec_data().spec_comment(),
    {
        match self {
            PortDescription::In(inner) => inner.comment,
            PortDescription::InOut(inner) => inner.comment,
            PortDescription::Out(inner) => inner.comment,
        }
    }

    /// The port's default value, if one was declared.
    pub fn default(&self) -> (r: Option<&'static str>)
        ensures
            r == self.spec_data().spec_default(),
    {
        match self {
            PortDescription::In(inner) => inner.default,
            PortDescription::InOut(inner) => inner.default,
            PortDescription::Out(inner) => inner.default,
        }
    }

    /// The port's identifying name.
    pub fn name(&self) -> (r: &'static str)
        ensures
            r == self.spec_data().spec_name(),
    {
        match self {
            PortDescription::In(inner) => inner.name,
            PortDescription::InOut(inner) => inner.name,
            PortDescription::Out(inner) => inner.name,
        }
    }
}

/// Something that declares a list of port descriptions.  Only
/// [`Self::port_description_list`] has to be supplied; the lookups come with
/// it.
pub trait PortDescriptionProvider {
    /// The declared port descriptions.
    fn port_description_list(&self) -> &[PortDescription];

    /// Whether a port named `port_name` is described.
    fn has_port(&self, port_name: &str) -> bool {
        let list = self.port_description_list();
        let mut i: usize = 0;
        while i < list.len()
            invariant
                i <= list@.len(),
            decreases list@.len() - i,
        {
            if str_eq(list[i].name(), port_name) {
                return true;
            }
            i = i + 1;
        }
        false
    }

    /// The first description of a port named `port_name`, if any.
    fn port_description(&self, port_name: &str) -> Option<&PortDescription> {
        let list = self.port_description_list();
        let mut i: usize = 0;
        while i < list.len()
            invariant
                i <= list@.len(),
            decreases list@.len() - i,
        {
            if str_eq(list[i].name(), port_name) {
                return Some(&list[i]);
            }
            i = i + 1;
        }
        None
    }
}

} // verus!

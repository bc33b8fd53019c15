//! The capability record and its mathematical model.

use vstd::prelude::*;

verus! {

/// What a capability is, as plain mathematical values: three character
/// sequences, none of them constrained.
pub struct CapabilityView {
    pub name: Seq<char>,
    pub description: Seq<char>,
    pub url: Seq<char>,
}

/// A named, describable, URL-addressable service entry.
///
/// No field is validated: empty strings are legal and two records may share
/// a name.
#[derive(Debug, PartialEq, Eq)]
pub struct Capability {
    pub name: String,
    pub description: String,
    pub url: String,
}

impl View for Capability {
    type V = CapabilityView;

    open spec fn view(&self) -> CapabilityView {
        CapabilityView { name: self.name@, description: self.description@, url: self.url@ }
    }
}

/// The records that a sequence of capabilities stands for, position by
/// position.
pub open spec fn views_of(capabilities: Seq<Capability>) -> Seq<CapabilityView> {
    Seq::new(capabilities.len(), |i: int| capabilities[i]@)
}

impl Clone for Capability {
    /// An independent copy that holds the same three strings.
    fn clone(&self) -> (copy: Self)
        ensures
            copy == *self,
            copy@ == self@,
    {
        Capability {
            name: self.name.clone(),
            description: self.description.clone(),
            url: self.url.clone(),
        }
    }
}

} // verus!

//! The registry: an ordered, grow-only sequence of capability records.

use vstd::prelude::*;
use crate::capability::{views_of, Capability, CapabilityView};

verus! {

/// `i` is the position of the earliest record in `records` named `name`.
pub open spec fn is_first_match(records: Seq<CapabilityView>, name: Seq<char>, i: int) -> bool {
    &&& 0 <= i < records.len()
    &&& records[i].name == name
    &&& forall|j: int| 0 <= j < i ==> (#[trigger] records[j]).name != name
}

/// Some record in `records` is named `name`.
pub open spec fn has_name(records: Seq<CapabilityView>, name: Seq<char>) -> bool {
    exists|i: int| 0 <= i < records.len() && (#[trigger] records[i]).name == name
}

/// The record that a lookup by `name` yields: the earliest one so named, or
/// nothing when no record carries the name.
pub open spec fn lookup(records: Seq<CapabilityView>, name: Seq<char>) -> Option<CapabilityView> {
    if exists|i: int| is_first_match(records, name, i) {
        Some(records[choose|i: int| is_first_match(records, name, i)])
    } else {
        None
    }
}

/// The records held after `added` have been registered one by one, in order,
/// on top of `start`.
pub open spec fn after_registrations(
    start: Seq<CapabilityView>,
    added: Seq<CapabilityView>,
) -> Seq<CapabilityView>
    decreases added.len(),
{
    if added.len() == 0 {
        start
    } else {
        after_registrations(start.push(added[0]), added.drop_first())
    }
}

/// The in-memory store of capability records.
///
/// Its view is the sequence of records in the order in which they were
/// registered. The sequence only grows: there is no removal and no update, and
/// names need not be unique.
pub struct Registry {
    capabilities: Vec<Capability>,
}

impl View for Registry {
    type V = Seq<CapabilityView>;

    closed spec fn view(&self) -> Seq<CapabilityView> {
        views_of(self.capabilities@)
    }
}

impl Registry {
    /// An empty registry.
    pub fn new() -> (registry: Self)
        ensures
            registry@ == Seq::<CapabilityView>::empty(),
    {
        let registry = Registry { capabilities: Vec::new() };
        assert(registry@ =~= Seq::<CapabilityView>::empty());
        registry
    }

    /// Appends `capability` at the end. Always succeeds; an equal name already
    /// present is no obstacle.
    pub fn register(&mut self, capability: Capability)
        ensures
            final(self)@ == old(self)@.push(capability@),
    {
        self.capabilities.push(capability);
        assert(self@ =~= old(self)@.push(capability@));
    }

    /// The earliest record named `name`, copied out, or `None` when no record
    /// carries that name.
    pub fn get(&self, name: String) -> (found: Option<Capability>)
        ensures
            match found {
                Some(capability) => lookup(self@, name@) == Some(capability@),
                None => lookup(self@, name@) is None,
            },
            found is Some <==> has_name(self@, name@),
    {
        let mut i: usize = 0;
        while i < self.capabilities.len()
            invariant
                i <= self.capabilities.len(),
                forall|j: int| 0 <= j < i ==> (#[trigger] self@[j]).name != name@,
            decreases self.capabilities.len() - i,
        {
            if self.capabilities[i].name == name {
                proof {
                    assert(self@[i as int] == self.capabilities@[i as int]@);
                    assert(is_first_match(self@, name@, i as int));
                    lemma_first_match_unique(
                        self@,
                        name@,
                        i as int,
                        choose|k: int| is_first_match(self@, name@, k),
                    );
                }
                return Some(self.capabilities[i].clone());
            }
            i += 1;
        }
        None
    }

    /// A complete, independent copy of the records, in registration order.
    pub fn list(&self) -> (copies: Vec<Capability>)
        ensures
            views_of(copies@) == self@,
    {
        let mut copies: Vec<Capability> = Vec::new();
        let mut i: usize = 0;
        while i < self.capabilities.len()
            invariant
                i <= self.capabilities.len(),
                copies@.len() == i,
                forall|j: int| 0 <= j < i ==> (#[trigger] copies@[j])@ == self@[j],
            decreases self.capabilities.len() - i,
        {
            copies.push(self.capabilities[i].clone());
            i += 1;
        }
        assert(views_of(copies@) =~= self@);
        copies
    }
}

impl Clone for Registry {
    /// A registry of its own that holds the same records in the same order.
    fn clone(&self) -> (copy: Self)
        ensures
            copy@ == self@,
    {
        Registry { capabilities: self.list() }
    }
}

/// At most one position is the first match for a name.
pub proof fn lemma_first_match_unique(
    records: Seq<CapabilityView>,
    name: Seq<char>,
    i: int,
    k: int,
)
    requires
        is_first_match(records, name, i),
        is_first_match(records, name, k),
    ensures
        i == k,
{
    if i < k {
        assert(records[i].name != name);
    } else if k < i {
        assert(records[k].name != name);
    }
}

} // verus!

//! Laws that relate the registry's operations to one another.

use vstd::prelude::*;
use crate::capability::{views_of, Capability, CapabilityView};
use crate::registry::{
    after_registrations, has_name, is_first_match, lemma_first_match_unique, lookup,
};

verus! {

/// Registering `added` one by one on top of `start` yields `start` followed by
/// `added`: nothing is lost, nothing is merged and the order is kept.
pub proof fn lemma_registrations_append(start: Seq<CapabilityView>, added: Seq<CapabilityView>)
    ensures
        after_registrations(start, added) == start + added,
    decreases added.len(),
{
    if added.len() == 0 {
        assert(start + added =~= start);
    } else {
        lemma_registrations_append(start.push(added[0]), added.drop_first());
        assert(start.push(added[0]) + added.drop_first() =~= start + added);
    }
}

/// Any run of registrations on an empty registry, repeated names included,
/// leaves exactly the registered records, in the order of registration.
pub proof fn lemma_registrations_listed_in_order(added: Seq<CapabilityView>)
    ensures
        after_registrations(Seq::empty(), added) == added,
        after_registrations(Seq::empty(), added).len() == added.len(),
{
    lemma_registrations_append(Seq::empty(), added);
    assert(Seq::<CapabilityView>::empty() + added =~= added);
}

/// Two listings of the same records hold the same records at every position:
/// reading twice with no registration in between gives the same answer.
pub proof fn lemma_listings_agree(
    first: Seq<Capability>,
    second: Seq<Capability>,
    records: Seq<CapabilityView>,
)
    requires
        views_of(first) == records,
        views_of(second) == records,
    ensures
        views_of(first) == views_of(second),
        first.len() == second.len(),
        forall|i: int| 0 <= i < first.len() ==> (#[trigger] first[i])@ == second[i]@,
{
    assert(views_of(first).len() == first.len());
    assert(views_of(second).len() == second.len());
    assert forall|i: int| 0 <= i < first.len() implies (#[trigger] first[i])@ == second[i]@ by {
        assert(views_of(first)[i] == first[i]@);
        assert(views_of(second)[i] == second[i]@);
    }
}

/// When registrations are applied one at a time, in whatever order `order`
/// puts the `submitted` ones, the registry ends with as many records as were
/// submitted and holds each of them as often as it was submitted.
pub proof fn lemma_serialized_registrations_keep_all(
    submitted: Seq<CapabilityView>,
    order: Seq<CapabilityView>,
)
    requires
        order.to_multiset() == submitted.to_multiset(),
    ensures
        after_registrations(Seq::empty(), order).len() == submitted.len(),
        after_registrations(Seq::empty(), order).to_multiset() == submitted.to_multiset(),
        forall|i: int|
            0 <= i < submitted.len() ==> after_registrations(Seq::empty(), order).contains(
                #[trigger] submitted[i],
            ),
{
    lemma_registrations_listed_in_order(order);
    order.to_multiset_ensures();
    submitted.to_multiset_ensures();
    assert forall|i: int| 0 <= i < submitted.len() implies order.contains(
        #[trigger] submitted[i],
    ) by {
        assert(submitted.contains(submitted[i]));
        assert(submitted.to_multiset().count(submitted[i]) > 0);
        assert(order.to_multiset().count(submitted[i]) > 0);
    }
}

/// A lookup finds something exactly when some record carries the name.
pub proof fn lemma_lookup_some_iff_named(records: Seq<CapabilityView>, name: Seq<char>)
    ensures
        lookup(records, name) is Some <==> has_name(records, name),
        lookup(records, name) is Some ==> lookup(records, name).unwrap().name == name
            && records.contains(lookup(records, name).unwrap()),
{
    if has_name(records, name) {
        let i = choose|i: int| 0 <= i < records.len() && (#[trigger] records[i]).name == name;
        lemma_first_match_exists(records, name, i);
    }
}

/// If the record at `i` carries the name, some position at or before `i` is
/// the first match.
pub proof fn lemma_first_match_exists(records: Seq<CapabilityView>, name: Seq<char>, i: int)
    requires
        0 <= i < records.len(),
        records[i].name == name,
    ensures
        exists|k: int| 0 <= k <= i && is_first_match(records, name, k),
    decreases i,
{
    if exists|j: int| 0 <= j < i && (#[trigger] records[j]).name == name {
        let j = choose|j: int| 0 <= j < i && (#[trigger] records[j]).name == name;
        lemma_first_match_exists(records, name, j);
    } else {
        assert(is_first_match(records, name, i));
    }
}

/// A name that was never registered is not found.
pub proof fn lemma_lookup_unregistered(records: Seq<CapabilityView>, name: Seq<char>)
    requires
        forall|i: int| 0 <= i < records.len() ==> (#[trigger] records[i]).name != name,
    ensures
        lookup(records, name) is None,
{
}

/// What a lookup yields after one more registration: a name found before is
/// still answered by the same, earlier record, so a later record of that name
/// is never returned; a name not found before is answered by the new record
/// if it carries the name, and is still not found otherwise.
pub proof fn lemma_lookup_after_register(
    records: Seq<CapabilityView>,
    added: CapabilityView,
    name: Seq<char>,
)
    ensures
        lookup(records.push(added), name) == if lookup(records, name) is Some {
            lookup(records, name)
        } else if added.name == name {
            Some(added)
        } else {
            None
        },
{
    let grown = records.push(added);
    if exists|i: int| is_first_match(records, name, i) {
        let i = choose|i: int| is_first_match(records, name, i);
        assert forall|j: int| 0 <= j < i implies (#[trigger] grown[j]).name != name by {
            assert(grown[j] == records[j]);
        }
        assert(grown[i] == records[i]);
        assert(is_first_match(grown, name, i));
        let k = choose|k: int| is_first_match(grown, name, k);
        lemma_first_match_unique(grown, name, i, k);
    } else {
        assert forall|j: int| 0 <= j < records.len() implies (#[trigger] grown[j]).name
            != name by {
            assert(grown[j] == records[j]);
            if records[j].name == name {
                lemma_first_match_exists(records, name, j);
            }
        }
        if added.name == name {
            assert(grown[records.len() as int] == added);
            assert(is_first_match(grown, name, records.len() as int));
            let k = choose|k: int| is_first_match(grown, name, k);
            lemma_first_match_unique(grown, name, records.len() as int, k);
        } else {
            assert forall|k: int| !is_first_match(grown, name, k) by {
                if 0 <= k < grown.len() {
                    if k < records.len() {
                        assert(grown[k].name != name);
                    } else {
                        assert(grown[k] == added);
                    }
                }
            }
        }
    }
}

} // verus!

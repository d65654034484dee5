//! Choosing a resource by its display name from a listing.
//!
//! The rule is fixed: the listing is read in the order the server gave it,
//! names are compared character for character, and the first record that
//! carries the name is taken. Two records under one name are no error.

use vstd::prelude::*;

verus! {

/// One record of a listing: a resource's identifier and its display name.
#[derive(Debug, Clone, PartialEq, Eq)]
pub struct Listed {
    pub id: String,
    pub name: String,
}

/// The kind of resource a name was looked up for.
#[derive(Debug, Clone, Copy, PartialEq, Eq, Structural)]
pub enum Resource {
    Hotkey,
    Model,
}

/// Some record of the listing carries `name`.
pub open spec fn has_match(listing: Seq<Listed>, name: Seq<char>) -> bool {
    exists|i: int| 0 <= i < listing.len() && (#[trigger] listing[i]).name@ == name
}

/// The record at `i` carries `name` and none before it does.
pub open spec fn is_first_match(listing: Seq<Listed>, name: Seq<char>, i: int) -> bool {
    &&& 0 <= i < listing.len()
    &&& listing[i].name@ == name
    &&& forall|j: int| 0 <= j < i ==> (#[trigger] listing[j]).name@ != name
}

/// The position of the first record that carries `name`, if there is one.
pub open spec fn first_match(listing: Seq<Listed>, name: Seq<char>) -> Option<int>
    decreases listing.len(),
{
    if listing.len() == 0 {
        None
    } else if listing[0].name@ == name {
        Some(0)
    } else {
        match first_match(listing.subrange(1, listing.len() as int), name) {
            Some(i) => Some(i + 1),
            None => None,
        }
    }
}

/// `first_match` finds a position exactly when some record carries the
/// name, and the position it finds is that of the first such record.
pub proof fn lemma_first_match(listing: Seq<Listed>, name: Seq<char>)
    ensures
        first_match(listing, name) is Some <==> has_match(listing, name),
        first_match(listing, name) matches Some(i) ==> is_first_match(listing, name, i),
        forall|i: int|
            is_first_match(listing, name, i) ==> first_match(listing, name) == Some(i),
    decreases listing.len(),
{
    if listing.len() == 0 {
    } else if listing[0].name@ == name {
        assert(is_first_match(listing, name, 0));
        assert forall|i: int| is_first_match(listing, name, i) implies i == 0 by {
            if i > 0 {
                assert(listing[0].name@ != name);
            }
        }
    } else {
        let rest = listing.subrange(1, listing.len() as int);
        lemma_first_match(rest, name);
        assert forall|k: int| 0 <= k < rest.len() implies rest[k] == listing[k + 1] by {}
        if has_match(listing, name) {
            let i = choose|i: int| 0 <= i < listing.len() && (#[trigger] listing[i]).name@ == name;
            assert(rest[i - 1].name@ == name);
            assert(has_match(rest, name));
        }
        if has_match(rest, name) {
            let i = choose|i: int| 0 <= i < rest.len() && (#[trigger] rest[i]).name@ == name;
            assert(listing[i + 1].name@ == name);
        }
        match first_match(rest, name) {
            Some(i) => {
                assert(is_first_match(rest, name, i));
                assert forall|j: int| 0 <= j < i + 1 implies (#[trigger] listing[j]).name@
                    != name by {
                    if j > 0 {
                        assert(rest[j - 1].name@ != name);
                    }
                }
                assert(is_first_match(listing, name, i + 1));
            },
            None => {},
        }
        assert forall|i: int| is_first_match(listing, name, i) implies first_match(listing, name)
            == Some(i) by {
            assert(i > 0);
            assert(rest[i - 1].name@ == name);
            assert forall|j: int| 0 <= j < i - 1 implies (#[trigger] rest[j]).name@ != name by {
                assert(listing[j + 1].name@ != name);
            }
            assert(is_first_match(rest, name, i - 1));
        }
    }
}

/// Scans `listing` from the front and returns the position of the first
/// record named `name`.
pub fn find_first(listing: &Vec<Listed>, name: &String) -> (r: Option<usize>)
    ensures
        r is Some <==> has_match(listing@, name@),
        r matches Some(i) ==> is_first_match(listing@, name@, i as int),
        match r {
            Some(i) => first_match(listing@, name@) == Some(i as int),
            None => first_match(listing@, name@).is_none(),
        },
{
    let mut i: usize = 0;
    while i < listing.len()
        invariant
            0 <= i <= listing.len(),
            forall|j: int| 0 <= j < i ==> (#[trigger] listing@[j]).name@ != name@,
        decreases listing.len() - i,
    {
        if listing[i].name == *name {
            proof {
                assert(is_first_match(listing@, name@, i as int));
                lemma_first_match(listing@, name@);
            }
            return Some(i);
        }
        i += 1;
    }
    proof {
        lemma_first_match(listing@, name@);
    }
    None
}

/// Where two records of a listing carry the name, the earlier one is the
/// one resolution settles on: no later record is ever the first match.
pub proof fn law_first_occurrence_wins(listing: Seq<Listed>, name: Seq<char>, i: int, j: int)
    requires
        0 <= i < j < listing.len(),
        listing[i].name@ == name,
        listing[j].name@ == name,
    ensures
        first_match(listing, name) is Some,
        first_match(listing, name).unwrap() <= i,
        first_match(listing, name) != Some(j),
{
    lemma_first_match(listing, name);
    let k = first_match(listing, name).unwrap();
    assert(is_first_match(listing, name, k));
    if k > i {
        assert(listing[i].name@ != name);
    }
}

} // verus!

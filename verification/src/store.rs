//! The selection store: what this process currently offers.
//!
//! A mapping from a selection to the full set of (target, payload)
//! representations offered for it.  A store call replaces a selection's
//! whole entry — there is no partial-target update — and the owner
//! worker mutates the store only by removing an entry when ownership of
//! its selection is lost.  (The reader/writer lock that shares one store
//! between API callers and the worker thread lives with the transport,
//! outside this crate's scope; every operation here is on the locked
//! value.)

use vstd::prelude::*;
use std::collections::HashMap;
use crate::Atom;

verus! {

broadcast use vstd::std_specs::hash::group_hash_axioms;

/// One offered representation: the payload for one target.
#[derive(Clone, Debug)]
pub struct Offer {
    pub target: Atom,
    pub value: Vec<u8>,
}

/// Whether an entry offers `target` at all.
pub open spec fn offers_target(entry: Seq<Offer>, target: Atom) -> bool {
    exists|i: int| 0 <= i < entry.len() && (#[trigger] entry[i]).target == target
}

/// The set of targets an entry offers.
pub open spec fn offered_targets(entry: Seq<Offer>) -> Set<Atom> {
    entry.map_values(|o: Offer| o.target).to_set()
}

/// The payload an entry binds to `target`: the first matching offer's
/// bytes, or nothing.
pub open spec fn lookup_spec(entry: Seq<Offer>, target: Atom) -> Option<Seq<u8>>
    decreases entry.len(),
{
    if entry.len() == 0 {
        Option::None
    } else if entry.first().target == target {
        Option::Some(entry.first().value@)
    } else {
        lookup_spec(entry.drop_first(), target)
    }
}

/// No two offers of an entry name the same target: the entry is a set of
/// representations.
pub open spec fn distinct_targets(entry: Seq<Offer>) -> bool {
    forall|i: int, j: int|
        0 <= i < j < entry.len() ==> (#[trigger] entry[i]).target != (#[trigger] entry[j]).target
}

/// An entry binds a payload to a target exactly when it offers that
/// target.
pub proof fn lemma_lookup_iff_offered(entry: Seq<Offer>, target: Atom)
    ensures
        lookup_spec(entry, target) is Some <==> offers_target(entry, target),
    decreases entry.len(),
{
    if entry.len() > 0 {
        lemma_lookup_iff_offered(entry.drop_first(), target);
        if entry.first().target == target {
            assert(entry[0].target == target);
        } else {
            if offers_target(entry.drop_first(), target) {
                let i = choose|i: int|
                    0 <= i < entry.drop_first().len() && (#[trigger] entry.drop_first()[i]).target
                        == target;
                assert(entry[i + 1].target == target);
            }
            if offers_target(entry, target) {
                let i = choose|i: int|
                    0 <= i < entry.len() && (#[trigger] entry[i]).target == target;
                assert(entry.drop_first()[i - 1].target == target);
            }
        }
    }
}

/// The mapping from a selection to its offered representations.
pub struct SelectionStore {
    entries: HashMap<Atom, Vec<Offer>>,
}

impl View for SelectionStore {
    type V = Map<Atom, Vec<Offer>>;

    closed spec fn view(&self) -> Map<Atom, Vec<Offer>> {
        self.entries@
    }
}

impl SelectionStore {
    /// An empty store: nothing is offered.
    pub fn new() -> (s: SelectionStore)
        ensures
            s@ == Map::<Atom, Vec<Offer>>::empty(),
    {
        SelectionStore { entries: HashMap::new() }
    }

    /// Whether any representation is offered for `selection`.
    pub fn has_selection(&self, selection: Atom) -> (r: bool)
        ensures
            r == self@.contains_key(selection),
    {
        self.entries.contains_key(&selection)
    }

    /// Replace `selection`'s whole entry with the given representation
    /// set.  Callers submit the full set each time; the targets must be
    /// pairwise distinct.
    pub fn put_many(&mut self, selection: Atom, offers: Vec<Offer>)
        requires
            distinct_targets(offers@),
        ensures
            final(self)@ == old(self)@.insert(selection, offers),
    {
        self.entries.insert(selection, offers);
    }

    /// Replace `selection`'s entry with a single representation.
    pub fn put(&mut self, selection: Atom, target: Atom, value: Vec<u8>)
        ensures
            final(self)@ == old(self)@.insert(selection, final(self)@[selection]),
            ({
                let entry = final(self)@[selection]@;
                entry.len() == 1 && entry[0] == (Offer { target, value })
            }),
    {
        let offers = vec![Offer { target, value }];
        assert(distinct_targets(offers@));
        self.put_many(selection, offers);
    }

    /// Drop `selection`'s entry: ownership was lost, nothing of it may be
    /// served to a late-arriving request.
    pub fn remove(&mut self, selection: Atom)
        ensures
            final(self)@ == old(self)@.remove(selection),
    {
        self.entries.remove(&selection);
    }

    /// The representations offered for `selection`, if any.
    pub fn entry(&self, selection: Atom) -> (r: Option<&Vec<Offer>>)
        ensures
            match r {
                Some(offers) => self@.contains_key(selection) && offers == self@[selection],
                None => !self@.contains_key(selection),
            },
    {
        self.entries.get(&selection)
    }

    /// The payload offered for `target` under `selection`, if any: the
    /// requested representation's bytes and never another target's.
    pub fn lookup(&self, selection: Atom, target: Atom) -> (r: Option<&Vec<u8>>)
        ensures
            match r {
                Some(value) => self@.contains_key(selection) && lookup_spec(
                    self@[selection]@,
                    target,
                ) == Some(value@),
                None => !self@.contains_key(selection) || lookup_spec(self@[selection]@, target)
                    is None,
            },
    {
        match self.entries.get(&selection) {
            Some(offers) => lookup_in(offers, target),
            None => None,
        }
    }
}

/// First-match lookup inside one entry.
fn lookup_in(offers: &Vec<Offer>, target: Atom) -> (r: Option<&Vec<u8>>)
    ensures
        match r {
            Some(value) => lookup_spec(offers@, target) == Some(value@),
            None => lookup_spec(offers@, target) is None,
        },
{
    let n = offers.len();
    let mut i: usize = 0;
    proof {
        assert(offers@.skip(0) =~= offers@);
    }
    while i < n
        invariant
            0 <= i <= n,
            n == offers.len(),
            lookup_spec(offers@, target) == lookup_spec(offers@.skip(i as int), target),
        decreases n - i,
    {
        proof {
            assert(offers@.skip(i as int).first() == offers@[i as int]);
            assert(offers@.skip(i as int).drop_first() =~= offers@.skip(i as int + 1));
        }
        if offers[i].target == target {
            return Some(&offers[i].value);
        }
        i = i + 1;
    }
    proof {
        assert(offers@.skip(n as int).len() == 0);
    }
    None
}

/// Whether the targets of `offers` are pairwise distinct — the condition
/// `put_many` asks of a caller-supplied representation set.
pub fn targets_distinct(offers: &Vec<Offer>) -> (r: bool)
    ensures
        r == distinct_targets(offers@),
{
    let n = offers.len();
    let mut i: usize = 0;
    while i < n
        invariant
            0 <= i <= n,
            n == offers.len(),
            forall|a: int, b: int|
                0 <= a < b < offers@.len() && a < i ==> (#[trigger] offers@[a]).target != (
                #[trigger] offers@[b]).target,
        decreases n - i,
    {
        let mut j: usize = i + 1;
        while j < n
            invariant
                0 <= i < j <= n,
                n == offers.len(),
                forall|b: int| i < b < j ==> (#[trigger] offers@[b]).target != offers@[i as int].target,
            decreases n - j,
        {
            if offers[j].target == offers[i].target {
                return false;
            }
            j = j + 1;
        }
        i = i + 1;
    }
    true
}

} // verus!

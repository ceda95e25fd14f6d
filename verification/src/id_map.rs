use crate::id::{precedes, precedes_is_irreflexive, precedes_is_total, precedes_is_transitive, Id};
use vstd::prelude::*;

verus! {

/// A map from identifiers to values that keeps its entries in the order of
/// their identifiers, none of which occurs twice.
#[derive(Debug, PartialEq, Eq)]
pub struct IdMap<V> {
    entries: Vec<(Id, V)>,
}

/// Whether the entry at `at` has the identifier `id`.
pub open spec fn position_of<V>(entries: Seq<(Id, V)>, id: Seq<char>, at: int) -> bool {
    0 <= at < entries.len() && entries[at].0@ == id
}

/// Whether each entry's identifier comes before those of all later entries.
pub open spec fn in_order<V>(entries: Seq<(Id, V)>) -> bool {
    forall|i: int, j: int|
        0 <= i < j < entries.len() ==> #[trigger] precedes(entries[i].0@, entries[j].0@)
}

/// The map from the identifier of each entry to its value.
pub open spec fn map_of<V>(entries: Seq<(Id, V)>) -> Map<Seq<char>, V> {
    Map::new(
        |id: Seq<char>| exists|at: int| position_of(entries, id, at),
        |id: Seq<char>| entries[choose|at: int| position_of(entries, id, at)].1,
    )
}

/// Among entries in order, the value of the identifier at a place is the
/// value at that place.
pub proof fn value_at_position<V>(entries: Seq<(Id, V)>, at: int)
    requires
        in_order(entries),
        0 <= at < entries.len(),
    ensures
        map_of(entries).contains_key(entries[at].0@),
        map_of(entries)[entries[at].0@] == entries[at].1,
{
    let id = entries[at].0@;
    assert(position_of(entries, id, at));
    let chosen = choose|k: int| position_of(entries, id, k);
    assert(position_of(entries, id, chosen));
    precedes_is_irreflexive(id);
    if chosen < at {
        assert(precedes(entries[chosen].0@, entries[at].0@));
    }
    if at < chosen {
        assert(precedes(entries[at].0@, entries[chosen].0@));
    }
}

/// Putting an entry where its identifier belongs keeps the order, gives the
/// identifier its value and leaves every other identifier as it was.
pub proof fn insert_in_order<V>(entries: Seq<(Id, V)>, at: int, id: Id, value: V)
    requires
        in_order(entries),
        0 <= at <= entries.len(),
        forall|k: int| 0 <= k < at ==> #[trigger] precedes(entries[k].0@, id@),
        forall|k: int| at <= k < entries.len() ==> #[trigger] precedes(id@, entries[k].0@),
    ensures
        in_order(entries.insert(at, (id, value))),
        map_of(entries.insert(at, (id, value))) == map_of(entries).insert(id@, value),
{
    let after = entries.insert(at, (id, value));
    assert forall|i: int, j: int| 0 <= i < j < after.len() implies #[trigger] precedes(
        after[i].0@,
        after[j].0@,
    ) by {
        if j < at {
            assert(precedes(entries[i].0@, entries[j].0@));
        } else if j == at {
            assert(precedes(entries[i].0@, id@));
        } else if i < at {
            assert(precedes(entries[i].0@, entries[j - 1].0@));
        } else if i == at {
            assert(precedes(id@, entries[j - 1].0@));
        } else {
            assert(precedes(entries[i - 1].0@, entries[j - 1].0@));
        }
    }
    assert forall|key: Seq<char>|
        map_of(after).contains_key(key) <==> map_of(entries).insert(id@, value).contains_key(
            key,
        ) by {
        if map_of(after).contains_key(key) {
            let k = choose|k: int| position_of(after, key, k);
            if k < at {
                assert(position_of(entries, key, k));
            } else if k > at {
                assert(position_of(entries, key, k - 1));
            }
        }
        if map_of(entries).contains_key(key) {
            let k = choose|k: int| position_of(entries, key, k);
            if k < at {
                assert(position_of(after, key, k));
            } else {
                assert(position_of(after, key, k + 1));
            }
        }
        if key == id@ {
            assert(position_of(after, key, at));
        }
    }
    assert forall|key: Seq<char>| map_of(after).contains_key(key) implies map_of(after)[key]
        == map_of(entries).insert(id@, value)[key] by {
        let k = choose|k: int| position_of(after, key, k);
        value_at_position(after, k);
        if k < at {
            assert(position_of(entries, key, k));
            value_at_position(entries, k);
            precedes_is_irreflexive(id@);
        } else if k > at {
            assert(position_of(entries, key, k - 1));
            value_at_position(entries, k - 1);
            precedes_is_irreflexive(id@);
        }
    }
    assert(map_of(after) =~= map_of(entries).insert(id@, value));
}

impl<V: Clone> Clone for IdMap<V> {
    /// A map of the same identifiers in the same order, each with a copy
    /// of its value.
    fn clone(&self) -> (copy: Self)
        ensures
            copy.entries().len() == self.entries().len(),
            forall|k: int|
                0 <= k < self.entries().len() ==> (#[trigger] copy.entries()[k]).0
                    == self.entries()[k].0 && cloned(self.entries()[k].1, copy.entries()[k].1),
    {
        proof {
            use_type_invariant(self);
        }
        let mut entries: Vec<(Id, V)> = Vec::new();
        let mut at: usize = 0;
        while at < self.entries.len()
            invariant
                at <= self.entries@.len(),
                entries@.len() == at,
                forall|k: int|
                    0 <= k < at ==> (#[trigger] entries@[k]).0 == self.entries@[k].0 && cloned(
                        self.entries@[k].1,
                        entries@[k].1,
                    ),
            decreases self.entries@.len() - at,
        {
            entries.push((self.entries[at].0.clone(), self.entries[at].1.clone()));
            at += 1;
        }
        assert forall|i: int, j: int| 0 <= i < j < entries@.len() implies #[trigger] precedes(
            entries@[i].0@,
            entries@[j].0@,
        ) by {
            assert(entries@[i].0 == self.entries@[i].0);
            assert(entries@[j].0 == self.entries@[j].0);
            assert(precedes(self.entries@[i].0@, self.entries@[j].0@));
        }
        IdMap { entries }
    }
}

impl<V> IdMap<V> {
    #[verifier::type_invariant]
    spec fn ordered(&self) -> bool {
        in_order(self.entries@)
    }

    /// The entries, in the order of their identifiers.
    pub closed spec fn entries(&self) -> Seq<(Id, V)> {
        self.entries@
    }

    /// Whether the entries are in order, which holds of every map that
    /// runs.
    pub open spec fn well_formed(&self) -> bool {
        in_order(self.entries())
    }

    /// The map from each identifier to its value.
    pub open spec fn view(&self) -> Map<Seq<char>, V> {
        map_of(self.entries())
    }

    /// A map without entries.
    pub fn new() -> (map: Self)
        ensures
            map.entries().len() == 0,
            map@ == Map::<Seq<char>, V>::empty(),
    {
        let map = IdMap { entries: Vec::new() };
        assert(map@ =~= Map::<Seq<char>, V>::empty());
        map
    }

    /// The number of entries, which stand in the order of their
    /// identifiers.
    pub fn len(&self) -> (count: usize)
        ensures
            count == self.entries().len(),
            self.well_formed(),
    {
        proof {
            use_type_invariant(self);
        }
        self.entries.len()
    }

    /// The place where `id` stands, or else the place where it would have to
    /// be put.
    fn search(&self, id: &Id) -> (found: (usize, bool))
        ensures
            found.0 <= self.entries().len(),
            forall|k: int| 0 <= k < found.0 ==> #[trigger] precedes(self.entries()[k].0@, id@),
            found.1 ==> position_of(self.entries(), id@, found.0 as int),
            !found.1 ==> forall|k: int|
                found.0 <= k < self.entries().len() ==> #[trigger] precedes(
                    id@,
                    self.entries()[k].0@,
                ),
            found.1 == self@.contains_key(id@),
    {
        proof {
            use_type_invariant(self);
        }
        let mut at: usize = 0;
        let mut passing = true;
        while passing && at < self.entries.len()
            invariant
                at <= self.entries@.len(),
                forall|k: int| 0 <= k < at ==> #[trigger] precedes(self.entries@[k].0@, id@),
                !passing ==> at < self.entries@.len() && !precedes(
                    self.entries@[at as int].0@,
                    id@,
                ),
            decreases self.entries@.len() - at + if passing { 1nat } else { 0nat },
        {
            if self.entries[at].0.precedes(id) {
                at += 1;
            } else {
                passing = false;
            }
        }
        let here = at < self.entries.len() && self.entries[at].0.same_as(id);
        proof {
            let entries = self.entries@;
            precedes_is_irreflexive(id@);
            if here {
                assert(position_of(entries, id@, at as int));
            } else {
                assert forall|k: int| at <= k < entries.len() implies #[trigger] precedes(
                    id@,
                    entries[k].0@,
                ) by {
                    precedes_is_total(entries[at as int].0@, id@);
                    if k > at {
                        assert(precedes(entries[at as int].0@, entries[k].0@));
                        precedes_is_transitive(id@, entries[at as int].0@, entries[k].0@);
                    }
                }
                if self@.contains_key(id@) {
                    let k = choose|k: int| position_of(entries, id@, k);
                    if k < at {
                        assert(precedes(entries[k].0@, id@));
                    } else {
                        assert(precedes(id@, entries[k].0@));
                    }
                }
            }
        }
        (at, here)
    }

    /// Whether `id` has a value.
    pub fn contains_key(&self, id: &Id) -> (found: bool)
        ensures
            found == self@.contains_key(id@),
    {
        self.search(id).1
    }

    /// The value of `id`.
    pub fn get(&self, id: &Id) -> (found: Option<&V>)
        ensures
            match found {
                Some(value) => self@.contains_key(id@) && self@[id@] == *value,
                None => !self@.contains_key(id@),
            },
    {
        let (at, here) = self.search(id);
        if here {
            proof {
                use_type_invariant(self);
                value_at_position(self.entries(), at as int);
            }
            Some(&self.entries[at].1)
        } else {
            None
        }
    }

    /// The identifier of the entry at `at`.
    pub fn key_at(&self, at: usize) -> (id: &Id)
        requires
            at < self.entries().len(),
        ensures
            *id == self.entries()[at as int].0,
            self@.contains_key(id@),
    {
        assert(position_of(self.entries(), self.entries@[at as int].0@, at as int));
        &self.entries[at].0
    }

    /// The value of the entry at `at`.
    pub fn value_at(&self, at: usize) -> (value: &V)
        requires
            at < self.entries().len(),
        ensures
            *value == self.entries()[at as int].1,
            self@[self.entries()[at as int].0@] == *value,
    {
        proof {
            use_type_invariant(self);
            value_at_position(self.entries(), at as int);
        }
        &self.entries[at].1
    }

    /// Gives `id` the value `value` unless it has one already, and tells
    /// whether it did so. An identifier that was there keeps its value.
    pub fn insert_if_absent(&mut self, id: Id, value: V) -> (inserted: bool)
        ensures
            inserted == !old(self)@.contains_key(id@),
            final(self)@ == if old(self)@.contains_key(id@) {
                old(self)@
            } else {
                old(self)@.insert(id@, value)
            },
            final(self).well_formed(),
    {
        proof {
            use_type_invariant(&*self);
        }
        let (at, here) = self.search(&id);
        if here {
            return false;
        }
        let ghost before = self.entries@;
        proof {
            insert_in_order(before, at as int, id, value);
        }
        let mut taken = IdMap { entries: Vec::new() };
        core::mem::swap(self, &mut taken);
        let mut entries = taken.entries;
        entries.insert(at, (id, value));
        *self = IdMap { entries };
        true
    }
}

} // verus!

//! The query parameters of a request: a mapping from names to values.

use crate::api::common::text::text_of;
use vstd::prelude::*;
use vstd::string::*;

verus! {

/// The mapping that a list of pairs stands for: a later pair replaces an
/// earlier one of the same name.
pub open spec fn pairs_map(pairs: Seq<(Seq<char>, Seq<char>)>) -> Map<Seq<char>, Seq<char>>
    decreases pairs.len(),
{
    if pairs.len() == 0 {
        Map::empty()
    } else {
        pairs_map(pairs.drop_last()).insert(pairs.last().0, pairs.last().1)
    }
}

/// A mapping with `value` under `name` where there is a value, and unchanged
/// where there is none.
pub open spec fn with_parameter(
    parameters: Map<Seq<char>, Seq<char>>,
    name: Seq<char>,
    value: Option<Seq<char>>,
) -> Map<Seq<char>, Seq<char>> {
    match value {
        Some(v) => parameters.insert(name, v),
        None => parameters,
    }
}

/// No name occurs twice in the list.
pub open spec fn distinct_names(pairs: Seq<(Seq<char>, Seq<char>)>) -> bool {
    forall|i: int, j: int| 0 <= i < j < pairs.len() ==> pairs[i].0 != pairs[j].0
}

/// The names of the mapping are the names of the list, and finitely many.
pub proof fn lemma_pairs_map_names(pairs: Seq<(Seq<char>, Seq<char>)>)
    ensures
        pairs_map(pairs).dom().finite(),
        forall|name: Seq<char>| #[trigger]
            pairs_map(pairs).contains_key(name) <==> exists|i: int|
                0 <= i < pairs.len() && #[trigger] pairs[i].0 == name,
    decreases pairs.len(),
{
    if pairs.len() > 0 {
        let front = pairs.drop_last();
        lemma_pairs_map_names(front);
        assert forall|name: Seq<char>| #[trigger]
            pairs_map(pairs).contains_key(name) implies exists|i: int|
            0 <= i < pairs.len() && #[trigger] pairs[i].0 == name by {
            if name == pairs.last().0 {
                assert(pairs[pairs.len() - 1].0 == name);
            } else {
                let i = choose|i: int| 0 <= i < front.len() && #[trigger] front[i].0 == name;
                assert(pairs[i].0 == name);
            }
        }
        assert forall|name: Seq<char>|
            (exists|i: int|
                0 <= i < pairs.len() && #[trigger] pairs[i].0 == name) implies #[trigger] pairs_map(
            pairs,
        ).contains_key(name) by {
            let i = choose|i: int| 0 <= i < pairs.len() && #[trigger] pairs[i].0 == name;
            if i < pairs.len() - 1 {
                assert(front[i].0 == name);
            }
        }
    }
}

/// Where no name occurs twice, each pair of the list is an entry of the
/// mapping and the mapping has as many entries as the list has pairs.
pub proof fn lemma_pairs_map_entries(pairs: Seq<(Seq<char>, Seq<char>)>)
    requires
        distinct_names(pairs),
    ensures
        pairs_map(pairs).len() == pairs.len(),
        forall|i: int|
            0 <= i < pairs.len() ==> pairs_map(pairs).contains_key(#[trigger] pairs[i].0)
                && pairs_map(pairs)[pairs[i].0] == pairs[i].1,
    decreases pairs.len(),
{
    if pairs.len() > 0 {
        let front = pairs.drop_last();
        lemma_pairs_map_entries(front);
        lemma_pairs_map_names(front);
        let last = pairs.last();
        if pairs_map(front).contains_key(last.0) {
            let i = choose|i: int| 0 <= i < front.len() && #[trigger] front[i].0 == last.0;
            assert(pairs[i].0 == pairs[pairs.len() - 1].0);
        }
        assert forall|i: int| 0 <= i < pairs.len() implies pairs_map(pairs).contains_key(
            #[trigger] pairs[i].0,
        ) && pairs_map(pairs)[pairs[i].0] == pairs[i].1 by {
            if i < pairs.len() - 1 {
                assert(front[i] == pairs[i]);
            }
        }
    }
}

/// Replacing the value of the pair at `at` replaces the value under its name.
pub proof fn lemma_pairs_map_update(
    pairs: Seq<(Seq<char>, Seq<char>)>,
    at: int,
    value: Seq<char>,
)
    requires
        distinct_names(pairs),
        0 <= at < pairs.len(),
    ensures
        pairs_map(pairs.update(at, (pairs[at].0, value))) == pairs_map(pairs).insert(
            pairs[at].0,
            value,
        ),
        distinct_names(pairs.update(at, (pairs[at].0, value))),
    decreases pairs.len(),
{
    let updated = pairs.update(at, (pairs[at].0, value));
    let front = pairs.drop_last();
    if at == pairs.len() - 1 {
        assert(updated.drop_last() =~= front);
    } else {
        lemma_pairs_map_update(front, at, value);
        assert(updated.drop_last() =~= front.update(at, (front[at].0, value)));
    }
}

/// `str`'s `==`: the two strings hold the same characters.
pub assume_specification[ <str as PartialEq>::eq ](a: &str, b: &str) -> (equal: bool)
    ensures
        equal == (a@ == b@),
;

/// The names and values of a list of owned pairs.
pub open spec fn pairs_of(entries: Seq<(String, String)>) -> Seq<(Seq<char>, Seq<char>)> {
    Seq::new(entries.len(), |i: int| (entries[i].0@, entries[i].1@))
}

/// Query parameters: each name at most once, in the order in which the names
/// were first inserted.
#[derive(Debug)]
pub struct QueryParameters {
    entries: Vec<(String, String)>,
}

impl View for QueryParameters {
    type V = Map<Seq<char>, Seq<char>>;

    /// The mapping from each name to its value.
    closed spec fn view(&self) -> Map<Seq<char>, Seq<char>> {
        pairs_map(self.pairs())
    }
}

impl Clone for QueryParameters {
    /// The same parameters, in the same order.
    fn clone(&self) -> (copy: Self)
        ensures
            copy@ == self@,
            copy.pairs() == self.pairs(),
    {
        proof {
            use_type_invariant(self);
        }
        let mut entries: Vec<(String, String)> = Vec::new();
        let mut i: usize = 0;
        while i < self.entries.len()
            invariant
                i <= self.entries.len(),
                entries@.len() == i,
                forall|j: int|
                    0 <= j < i ==> (#[trigger] entries@[j]).0@ == self.entries@[j].0@
                        && entries@[j].1@ == self.entries@[j].1@,
            decreases self.entries.len() - i,
        {
            let name = self.entries[i].0.clone();
            let value = self.entries[i].1.clone();
            entries.push((name, value));
            i = i + 1;
        }
        assert(pairs_of(entries@) =~= pairs_of(self.entries@));
        QueryParameters { entries }
    }
}

impl QueryParameters {
    /// The parameters as a list of name and value, in insertion order.
    pub closed spec fn pairs(&self) -> Seq<(Seq<char>, Seq<char>)> {
        pairs_of(self.entries@)
    }

    /// No name is held twice.
    #[verifier::type_invariant]
    spec fn well_formed(&self) -> bool {
        distinct_names(pairs_of(self.entries@))
    }

    /// No parameters.
    pub fn new() -> (parameters: Self)
        ensures
            parameters@ == Map::<Seq<char>, Seq<char>>::empty(),
            parameters.pairs() == Seq::<(Seq<char>, Seq<char>)>::empty(),
    {
        let entries: Vec<(String, String)> = Vec::new();
        QueryParameters { entries }
    }

    /// The position of `name` among the entries, if it is there.
    fn position(&self, name: &str) -> (found: Option<usize>)
        ensures
            match found {
                Some(i) => i < self.pairs().len() && self.pairs()[i as int].0 == name@,
                None => forall|i: int| 0 <= i < self.pairs().len() ==> self.pairs()[i].0 != name@,
            },
    {
        let mut i: usize = 0;
        while i < self.entries.len()
            invariant
                i <= self.entries.len(),
                forall|j: int| 0 <= j < i ==> pairs_of(self.entries@)[j].0 != name@,
            decreases self.entries.len() - i,
        {
            if self.entries[i].0.as_str().eq(name) {
                return Some(i);
            }
            i = i + 1;
        }
        None
    }

    /// Sets the value of `name`, replacing an earlier value.
    pub fn insert(&mut self, name: String, value: String)
        ensures
            final(self)@ == old(self)@.insert(name@, value@),
    {
        proof {
            use_type_invariant(&*self);
        }
        let ghost before = self.pairs();
        let found = self.position(name.as_str());
        let mut entries: Vec<(String, String)> = Vec::new();
        core::mem::swap(&mut self.entries, &mut entries);
        match found {
            Some(i) => {
                entries.set(i, (name, value));
            },
            None => {
                entries.push((name, value));
            },
        }
        proof {
            let after = pairs_of(entries@);
            match found {
                Some(i) => {
                    lemma_pairs_map_update(before, i as int, value@);
                    assert(after =~= before.update(i as int, (before[i as int].0, value@)));
                },
                None => {
                    assert(after.drop_last() =~= before);
                    assert forall|i: int, j: int| 0 <= i < j < after.len() implies after[i].0
                        != after[j].0 by {
                        assert(after[i] == before[i]);
                        if j < before.len() {
                            assert(after[j] == before[j]);
                        }
                    }
                },
            }
        }
        self.entries = entries;
    }

    /// Sets the value of `name` where there is one to set.
    pub fn insert_some(&mut self, name: &str, value: Option<String>)
        ensures
            final(self)@ == with_parameter(old(self)@, name@, text_of(value)),
    {
        match value {
            Some(v) => self.insert(name.to_owned(), v),
            None => {},
        }
    }

    /// The value of `name`, if it has one.
    pub fn get(&self, name: &str) -> (value: Option<&String>)
        ensures
            match value {
                Some(v) => self@.contains_key(name@) && v@ == self@[name@],
                None => !self@.contains_key(name@),
            },
    {
        proof {
            use_type_invariant(self);
            lemma_pairs_map_names(self.pairs());
            lemma_pairs_map_entries(self.pairs());
        }
        match self.position(name) {
            Some(i) => {
                Some(&self.entries[i].1)
            },
            None => None,
        }
    }

    /// Whether `name` has a value.
    pub fn contains_key(&self, name: &str) -> (found: bool)
        ensures
            found == self@.contains_key(name@),
    {
        self.get(name).is_some()
    }

    /// The number of parameters.
    pub fn len(&self) -> (count: usize)
        ensures
            count == self@.len(),
            self@.dom().finite(),
    {
        proof {
            use_type_invariant(self);
            lemma_pairs_map_names(self.pairs());
            lemma_pairs_map_entries(self.pairs());
        }
        self.entries.len()
    }

    /// Whether there is no parameter.
    pub fn is_empty(&self) -> (empty: bool)
        ensures
            empty == (self@.len() == 0),
            empty == (self@ == Map::<Seq<char>, Seq<char>>::empty()),
    {
        let count = self.len();
        proof {
            if count == 0 {
                assert(self@ =~= Map::<Seq<char>, Seq<char>>::empty());
            }
        }
        count == 0
    }

    /// Adds every parameter of `other`; where both hold a name, the value of
    /// `other` stays.
    pub fn extend(&mut self, other: QueryParameters)
        ensures
            final(self)@ == old(self)@.union_prefer_right(other@),
    {
        let ghost start = self@;
        let mut i: usize = 0;
        while i < other.entries.len()
            invariant
                i <= other.entries.len(),
                self@ == start.union_prefer_right(pairs_map(other.pairs().take(i as int))),
            decreases other.entries.len() - i,
        {
            let name = other.entries[i].0.clone();
            let value = other.entries[i].1.clone();
            proof {
                let done = other.pairs().take(i as int);
                let next = other.pairs().take(i + 1);
                assert(next.drop_last() =~= done);
                assert(start.union_prefer_right(pairs_map(done)).insert(name@, value@)
                    =~= start.union_prefer_right(pairs_map(next)));
            }
            self.insert(name, value);
            i = i + 1;
        }
        assert(other.pairs().take(other.entries.len() as int) =~= other.pairs());
    }

    /// The parameters as owned pairs of name and value, each name once.
    pub fn to_pairs(&self) -> (list: Vec<(String, String)>)
        ensures
            pairs_of(list@) == self.pairs(),
            pairs_map(pairs_of(list@)) == self@,
            distinct_names(pairs_of(list@)),
            list@.len() == self@.len(),
    {
        proof {
            use_type_invariant(self);
            lemma_pairs_map_entries(self.pairs());
        }
        let copy = self.clone();
        copy.entries
    }
}

impl Default for QueryParameters {
    /// No parameters.
    fn default() -> (parameters: Self)
        ensures
            parameters@ == Map::<Seq<char>, Seq<char>>::empty(),
    {
        QueryParameters::new()
    }
}

} // verus!

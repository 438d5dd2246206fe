//! The parameters that a caller hands to one call.

use crate::text::str_eq;
use vstd::prelude::*;

verus! {

/// A parameter as it is sent: its name and its value.
pub type Pair = (Seq<char>, Seq<char>);

/// Whether one of `pairs` is called `name`.
pub open spec fn has_name(pairs: Seq<Pair>, name: Seq<char>) -> bool {
    exists|i: int| 0 <= i < pairs.len() && (#[trigger] pairs[i]).0 == name
}

/// Whether no two of `pairs` share a name.
pub open spec fn distinct_names(pairs: Seq<Pair>) -> bool {
    forall|i: int, j: int|
        0 <= i < j < pairs.len() ==> (#[trigger] pairs[i]).0 != (#[trigger] pairs[j]).0
}

/// `pairs` after `name` was given `value`: the pair of that name carries the
/// new value where it stood, or a new pair stands at the end.
pub open spec fn with_pair(pairs: Seq<Pair>, name: Seq<char>, value: Seq<char>) -> Seq<Pair> {
    if has_name(pairs, name) {
        Seq::new(
            pairs.len(),
            |i: int|
                if pairs[i].0 == name {
                    (name, value)
                } else {
                    pairs[i]
                },
        )
    } else {
        pairs.push((name, value))
    }
}

/// The mapping from names to values that `pairs` stands for.
pub open spec fn pairs_map(pairs: Seq<Pair>) -> Map<Seq<char>, Seq<char>>
    decreases pairs.len(),
{
    if pairs.len() == 0 {
        Map::empty()
    } else {
        pairs_map(pairs.drop_last()).insert(pairs.last().0, pairs.last().1)
    }
}

/// The keys of the mapping are the names of the pairs.
pub proof fn lemma_pairs_map_keys(pairs: Seq<Pair>, name: Seq<char>)
    ensures
        pairs_map(pairs).contains_key(name) == has_name(pairs, name),
    decreases pairs.len(),
{
    if pairs.len() > 0 {
        let rest = pairs.drop_last();
        lemma_pairs_map_keys(rest, name);
        if has_name(rest, name) {
            let i = choose|i: int| 0 <= i < rest.len() && (#[trigger] rest[i]).0 == name;
            assert(pairs[i].0 == name);
        }
        if has_name(pairs, name) && pairs.last().0 != name {
            let i = choose|i: int| 0 <= i < pairs.len() && (#[trigger] pairs[i]).0 == name;
            assert(rest[i].0 == name);
        }
        if pairs.last().0 == name {
            assert(pairs[pairs.len() - 1].0 == name);
        }
    }
}

/// Where names are distinct, the mapping gives each name the value that
/// stands beside it.
pub proof fn lemma_pairs_map_value(pairs: Seq<Pair>, i: int)
    requires
        distinct_names(pairs),
        0 <= i < pairs.len(),
    ensures
        pairs_map(pairs).contains_key(pairs[i].0),
        pairs_map(pairs)[pairs[i].0] == pairs[i].1,
    decreases pairs.len(),
{
    let rest = pairs.drop_last();
    if i < pairs.len() - 1 {
        assert(distinct_names(rest)) by {
            assert forall|a: int, b: int| 0 <= a < b < rest.len() implies (#[trigger] rest[a]).0
                != (#[trigger] rest[b]).0 by {
                assert(pairs[a].0 != pairs[b].0);
            }
        }
        lemma_pairs_map_value(rest, i);
        assert(rest[i] == pairs[i]);
        assert(pairs[i].0 != pairs[pairs.len() - 1].0);
    }
}

/// Giving a name a value keeps names distinct, and is `insert` on the
/// mapping.
pub proof fn lemma_with_pair(pairs: Seq<Pair>, name: Seq<char>, value: Seq<char>)
    requires
        distinct_names(pairs),
    ensures
        distinct_names(with_pair(pairs, name, value)),
        pairs_map(with_pair(pairs, name, value)) == pairs_map(pairs).insert(name, value),
    decreases pairs.len(),
{
    let after = with_pair(pairs, name, value);
    if !has_name(pairs, name) {
        assert(after.drop_last() == pairs);
        assert forall|a: int, b: int| 0 <= a < b < after.len() implies (#[trigger] after[a]).0
            != (#[trigger] after[b]).0 by {
            if b < pairs.len() {
                assert(pairs[a].0 != pairs[b].0);
            } else {
                assert(pairs[a].0 != name);
            }
        }
    } else {
        assert forall|a: int, b: int| 0 <= a < b < after.len() implies (#[trigger] after[a]).0
            != (#[trigger] after[b]).0 by {
            assert(pairs[a].0 != pairs[b].0);
        }
        let rest = pairs.drop_last();
        let last = pairs.last();
        assert(distinct_names(rest)) by {
            assert forall|a: int, b: int| 0 <= a < b < rest.len() implies (#[trigger] rest[a]).0
                != (#[trigger] rest[b]).0 by {
                assert(pairs[a].0 != pairs[b].0);
            }
        }
        if last.0 == name {
            assert(after.drop_last() == rest) by {
                assert forall|a: int| 0 <= a < rest.len() implies after.drop_last()[a]
                    == rest[a] by {
                    assert(pairs[a].0 != pairs[pairs.len() - 1].0);
                }
            }
            assert(after.last() == (name, value));
            assert(pairs_map(after) == pairs_map(pairs).insert(name, value));
        } else {
            let i = choose|i: int| 0 <= i < pairs.len() && (#[trigger] pairs[i]).0 == name;
            assert(rest[i].0 == name);
            lemma_with_pair(rest, name, value);
            assert(after.drop_last() == with_pair(rest, name, value));
            assert(after.last() == last);
            assert(pairs_map(after) == pairs_map(pairs).insert(name, value));
        }
    }
}

/// The parameters of one call: a mapping from parameter name to value. The
/// pairs keep the order in which their names were first given.
#[derive(Debug)]
pub struct CallParameters {
    entries: Vec<(String, String)>,
}

impl View for CallParameters {
    type V = Map<Seq<char>, Seq<char>>;

    closed spec fn view(&self) -> Map<Seq<char>, Seq<char>> {
        pairs_map(self.pairs())
    }
}

/// The position of the entry called `name`, if there is one.
fn position(entries: &Vec<(String, String)>, name: &str) -> (found: Option<usize>)
    ensures
        match found {
            Some(i) => i < entries.len() && entries[i as int].0@ == name@,
            None => forall|j: int| 0 <= j < entries.len() ==> (#[trigger] entries[j]).0@ != name@,
        },
{
    let mut i: usize = 0;
    while i < entries.len()
        invariant
            i <= entries.len(),
            forall|j: int| 0 <= j < i ==> (#[trigger] entries[j]).0@ != name@,
        decreases entries.len() - i,
    {
        if str_eq(entries[i].0.as_str(), name) {
            return Some(i);
        }
        i = i + 1;
    }
    None
}

impl CallParameters {
    /// The pairs that a sequence of entries holds.
    pub open spec fn pairs_of(entries: Seq<(String, String)>) -> Seq<Pair> {
        Seq::new(entries.len(), |i: int| (entries[i].0@, entries[i].1@))
    }

    #[verifier::type_invariant]
    spec fn names_differ(self) -> bool {
        distinct_names(Self::pairs_of(self.entries@))
    }

    /// The pairs, in the order in which their names were first given.
    pub closed spec fn pairs(&self) -> Seq<Pair> {
        Self::pairs_of(self.entries@)
    }

    /// No parameters.
    pub fn new() -> (params: CallParameters)
        ensures
            params.pairs() == Seq::<Pair>::empty(),
            params@ == Map::<Seq<char>, Seq<char>>::empty(),
    {
        let params = CallParameters { entries: Vec::new() };
        assert(params.pairs() == Seq::<Pair>::empty());
        params
    }

    /// Gives `name` the value `value`, and hands back the value it had.
    pub fn insert(&mut self, name: &str, value: &str) -> (previous: Option<String>)
        ensures
            final(self).pairs() == with_pair(old(self).pairs(), name@, value@),
            final(self)@ == old(self)@.insert(name@, value@),
            distinct_names(final(self).pairs()),
            match previous {
                Some(before) => old(self)@.contains_key(name@) && before@ == old(self)@[name@],
                None => !old(self)@.contains_key(name@),
            },
    {
        proof {
            use_type_invariant(&*self);
            lemma_with_pair(self.pairs(), name@, value@);
            lemma_pairs_map_keys(self.pairs(), name@);
        }
        let ghost before = self.pairs();
        let mut entries: Vec<(String, String)> = Vec::new();
        std::mem::swap(&mut entries, &mut self.entries);
        assert(Self::pairs_of(entries@) == before);
        match position(&entries, name) {
            Some(i) => {
                let previous = entries[i].1.clone();
                proof {
                    assert(before[i as int].0 == name@);
                    lemma_pairs_map_value(before, i as int);
                }
                entries.set(i, (String::from_str(name), String::from_str(value)));
                assert(Self::pairs_of(entries@) == with_pair(before, name@, value@)) by {
                    assert forall|j: int| 0 <= j < before.len() implies Self::pairs_of(
                        entries@,
                    )[j] == with_pair(before, name@, value@)[j] by {
                        if j != i {
                            if j < i {
                                assert(before[j].0 != before[i as int].0);
                            } else {
                                assert(before[i as int].0 != before[j].0);
                            }
                        }
                    }
                }
                self.entries = entries;
                Some(previous)
            },
            None => {
                proof {
                    assert(!has_name(before, name@)) by {
                        if has_name(before, name@) {
                            let j = choose|j: int|
                                0 <= j < before.len() && (#[trigger] before[j]).0 == name@;
                            assert(entries[j].0@ != name@);
                        }
                    }
                }
                entries.push((String::from_str(name), String::from_str(value)));
                assert(Self::pairs_of(entries@) == with_pair(before, name@, value@));
                self.entries = entries;
                None
            },
        }
    }

    /// The value of `name`, if it has one.
    pub fn get(&self, name: &str) -> (value: Option<&str>)
        ensures
            match value {
                Some(value) => self@.contains_key(name@) && value@ == self@[name@],
                None => !self@.contains_key(name@),
            },
    {
        proof {
            use_type_invariant(self);
            lemma_pairs_map_keys(self.pairs(), name@);
        }
        match position(&self.entries, name) {
            Some(i) => {
                proof {
                    lemma_pairs_map_value(self.pairs(), i as int);
                }
                Some(self.entries[i].1.as_str())
            },
            None => {
                proof {
                    if has_name(self.pairs(), name@) {
                        let j = choose|j: int|
                            0 <= j < self.pairs().len() && (#[trigger] self.pairs()[j]).0 == name@;
                        assert(self.entries[j].0@ != name@);
                    }
                }
                None
            },
        }
    }

    /// How many parameters there are. No two of them share a name.
    pub fn len(&self) -> (count: usize)
        ensures
            count == self.pairs().len(),
            distinct_names(self.pairs()),
            self@ == pairs_map(self.pairs()),
    {
        proof {
            use_type_invariant(self);
        }
        self.entries.len()
    }

    /// Whether there is no parameter.
    pub fn is_empty(&self) -> (empty: bool)
        ensures
            empty == (self.pairs().len() == 0),
    {
        self.entries.len() == 0
    }

    /// The name and the value of the parameter at `index`.
    pub fn pair_at(&self, index: usize) -> (pair: (&str, &str))
        requires
            index < self.pairs().len(),
        ensures
            pair.0@ == self.pairs()[index as int].0,
            pair.1@ == self.pairs()[index as int].1,
            distinct_names(self.pairs()),
    {
        proof {
            use_type_invariant(self);
        }
        (self.entries[index].0.as_str(), self.entries[index].1.as_str())
    }
}

/// The mapping that the parameters of a call stand for; the empty one where
/// there are no parameters.
pub open spec fn given_map(params: Option<CallParameters>) -> Map<Seq<char>, Seq<char>> {
    match params {
        Some(params) => params@,
        None => Map::empty(),
    }
}

/// What holds of the parameters of every call: no two of the pairs share a
/// name, and the mapping is that of the pairs.
pub open spec fn given_consistent(params: Option<CallParameters>) -> bool {
    &&& distinct_names(given_pairs(params))
    &&& given_map(params) == pairs_map(given_pairs(params))
}

/// The pairs of the parameters of a call; none where there are no parameters.
pub open spec fn given_pairs(params: Option<CallParameters>) -> Seq<Pair> {
    match params {
        Some(params) => params.pairs(),
        None => Seq::empty(),
    }
}

} // verus!

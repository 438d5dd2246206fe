//! What an endpoint accepts: parameter names, and for some of them the
//! values they may take.

use crate::text::str_eq;
use vstd::prelude::*;

verus! {

/// The characters of each string of a sequence.
pub open spec fn texts(items: Seq<&'static str>) -> Seq<Seq<char>> {
    Seq::new(items.len(), |i: int| items[i]@)
}

/// One accepted parameter: its name and the values it may take. No values
/// means that any value is accepted.
#[derive(Debug)]
pub struct Constraint {
    /// The parameter's name.
    pub name: &'static str,
    /// The values that the parameter may take; none where any will do.
    pub allowed: Vec<&'static str>,
}

/// The mapping that a sequence of constraints stands for. Where a name
/// occurs twice, the later constraint counts.
pub open spec fn rule_map(entries: Seq<Constraint>) -> Map<Seq<char>, Seq<Seq<char>>>
    decreases entries.len(),
{
    if entries.len() == 0 {
        Map::empty()
    } else {
        rule_map(entries.drop_last()).insert(entries.last().name@, texts(entries.last().allowed@))
    }
}

/// Whether a rule lets a parameter carry a value: the name is one of the
/// rule's keys, and the value is one of the values listed for it, if any are.
pub open spec fn rule_accepts(
    rule: Map<Seq<char>, Seq<Seq<char>>>,
    name: Seq<char>,
    value: Seq<char>,
) -> bool {
    rule.contains_key(name) && (rule[name].len() == 0 || rule[name].contains(value))
}

/// The parameters that one endpoint accepts: a mapping from each accepted
/// parameter name to the values it may take. An empty list of values leaves
/// the value free.
#[derive(Debug)]
pub struct ParameterRule {
    entries: Vec<Constraint>,
}

impl View for ParameterRule {
    type V = Map<Seq<char>, Seq<Seq<char>>>;

    closed spec fn view(&self) -> Map<Seq<char>, Seq<Seq<char>>> {
        rule_map(self.entries@)
    }
}

impl ParameterRule {
    /// A rule that accepts no parameter.
    pub fn new() -> (rule: ParameterRule)
        ensures
            rule@ == Map::<Seq<char>, Seq<Seq<char>>>::empty(),
    {
        ParameterRule { entries: Vec::new() }
    }

    /// Accepts `name` from now on, with `allowed` as the values it may take.
    /// What the rule said of `name` before is forgotten.
    pub fn insert(&mut self, name: &'static str, allowed: Vec<&'static str>)
        ensures
            final(self)@ == old(self)@.insert(name@, texts(allowed@)),
    {
        let ghost before = self.entries@;
        self.entries.push(Constraint { name, allowed });
        assert(self.entries@.drop_last() == before);
    }

    /// The values that `name` may take, if the rule accepts `name` at all.
    pub fn get(&self, name: &str) -> (found: Option<&Vec<&'static str>>)
        ensures
            match found {
                Some(allowed) => self@.contains_key(name@) && self@[name@] == texts(allowed@),
                None => !self@.contains_key(name@),
            },
    {
        let mut i: usize = self.entries.len();
        assert(self.entries@.take(i as int) == self.entries@);
        while i > 0
            invariant
                i <= self.entries.len(),
                self@.contains_key(name@) == rule_map(self.entries@.take(i as int)).contains_key(
                    name@,
                ),
                self@.contains_key(name@) ==> self@[name@] == rule_map(
                    self.entries@.take(i as int),
                )[name@],
            decreases i,
        {
            let ghost upto = self.entries@.take(i as int);
            assert(upto.drop_last() == self.entries@.take(i - 1));
            assert(upto.last() == self.entries@[i - 1]);
            i = i - 1;
            if str_eq(self.entries[i].name, name) {
                return Some(&self.entries[i].allowed);
            }
        }
        None
    }

    /// Whether the rule accepts a parameter called `name`.
    pub fn contains_key(&self, name: &str) -> (known: bool)
        ensures
            known == self@.contains_key(name@),
    {
        self.get(name).is_some()
    }

    /// Whether the rule lets the parameter `name` carry `value`.
    pub fn accepts(&self, name: &str, value: &str) -> (accepted: bool)
        ensures
            accepted == rule_accepts(self@, name@, value@),
    {
        match self.get(name) {
            None => false,
            Some(allowed) => allowed.len() == 0 || one_of(allowed, value),
        }
    }
}

/// The mapping of a rule that may be missing.
pub open spec fn rule_of(rule: Option<ParameterRule>) -> Option<Map<Seq<char>, Seq<Seq<char>>>> {
    match rule {
        Some(rule) => Some(rule@),
        None => None,
    }
}

/// Whether `value` is one of `items`.
pub fn one_of(items: &Vec<&'static str>, value: &str) -> (found: bool)
    ensures
        found == texts(items@).contains(value@),
{
    let mut i: usize = 0;
    while i < items.len()
        invariant
            i <= items.len(),
            forall|j: int| 0 <= j < i ==> texts(items@)[j] != value@,
        decreases items.len() - i,
    {
        if str_eq(items[i], value) {
            assert(texts(items@)[i as int] == value@);
            return true;
        }
        i = i + 1;
    }
    false
}

} // verus!

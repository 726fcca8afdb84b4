//! Small maps from text to text, such as the properties of a table.
use vstd::prelude::*;

use crate::json::{
    add_member, distinct_names, json_members, json_object, json_tree, text_value, Json,
};

verus! {

/// A map from text to text that remembers the order in which its keys were
/// first put in.
#[derive(Debug)]
pub struct StringMap {
    entries: Vec<(String, String)>,
}

/// The pairs of texts in a sequence of pairs of strings.
spec fn pairs_of(entries: Seq<(String, String)>) -> Seq<(Seq<char>, Seq<char>)> {
    Seq::new(entries.len(), |i: int| (entries[i].0@, entries[i].1@))
}

/// Whether no key occurs twice.
pub open spec fn distinct_keys(pairs: Seq<(Seq<char>, Seq<char>)>) -> bool {
    forall|i: int, j: int|
        0 <= i < j < pairs.len() ==> #[trigger] pairs[i].0 != #[trigger] pairs[j].0
}

/// Whether `pairs` has the key `key`.
pub open spec fn has_key(pairs: Seq<(Seq<char>, Seq<char>)>, key: Seq<char>) -> bool {
    exists|i: int| 0 <= i < pairs.len() && #[trigger] pairs[i].0 == key
}

/// The JSON object for a map from text to text.
pub open spec fn map_tree(pairs: Seq<(Seq<char>, Seq<char>)>) -> Json {
    Json::Object(Seq::new(pairs.len(), |i: int| (pairs[i].0, Json::Text(pairs[i].1))))
}

/// Whether every pair of `a` is one of `b`.
pub open spec fn has_pairs(a: Seq<(Seq<char>, Seq<char>)>, b: Seq<(Seq<char>, Seq<char>)>) -> bool {
    forall|i: int| 0 <= i < a.len() ==> b.contains(#[trigger] a[i])
}

impl View for StringMap {
    type V = Seq<(Seq<char>, Seq<char>)>;

    closed spec fn view(&self) -> Seq<(Seq<char>, Seq<char>)> {
        pairs_of(self.entries@)
    }
}

impl StringMap {
    #[verifier::type_invariant]
    spec fn well_formed(self) -> bool {
        distinct_keys(self@)
    }

    /// A map without entries.
    pub fn new() -> (r: Self)
        ensures
            r@ == Seq::<(Seq<char>, Seq<char>)>::empty(),
    {
        let r = StringMap { entries: Vec::new() };
        assert(r@ =~= Seq::empty());
        r
    }

    /// The number of keys.
    pub fn len(&self) -> (r: usize)
        ensures
            r == self@.len(),
    {
        self.entries.len()
    }

    /// The value of a key, where the map has it.
    pub fn get(&self, key: &str) -> (r: Option<&str>)
        ensures
            match r {
                Some(value) => exists|i: int|
                    0 <= i < self@.len() && #[trigger] self@[i] == (key@, value@),
                None => !has_key(self@, key@),
            },
    {
        let wanted = key.to_owned();
        let mut i: usize = 0;
        while i < self.entries.len()
            invariant
                i <= self.entries.len(),
                wanted@ == key@,
                forall|k: int| 0 <= k < i ==> #[trigger] self@[k].0 != key@,
            decreases self.entries.len() - i,
        {
            if self.entries[i].0 == wanted {
                let value = self.entries[i].1.as_str();
                assert(self@[i as int] == (key@, value@));
                return Some(value);
            }
            i = i + 1;
        }
        None
    }

    /// Sets the value of a key: a key that the map has keeps its place, and a
    /// new one is put at the end.
    pub fn insert(self, key: &str, value: String) -> (r: Self)
        ensures
            has_key(self@, key@) ==> exists|i: int|
                0 <= i < self@.len() && #[trigger] self@[i].0 == key@ && r@ == self@.update(
                    i,
                    (key@, value@),
                ),
            !has_key(self@, key@) ==> r@ == self@.push((key@, value@)),
    {
        proof {
            use_type_invariant(&self);
        }
        let ghost before = self@;
        let mut entries = self.entries;
        let wanted = key.to_owned();
        let mut i: usize = 0;
        while i < entries.len()
            invariant
                i <= entries.len(),
                wanted@ == key@,
                before == self@,
                distinct_keys(before),
                before == pairs_of(entries@),
                forall|k: int| 0 <= k < i ==> #[trigger] before[k].0 != key@,
            decreases entries.len() - i,
        {
            if entries[i].0 == wanted {
                assert(before[i as int].0 == key@);
                entries[i] = (wanted, value);
                assert(pairs_of(entries@) =~= before.update(i as int, (key@, value@)));
                return StringMap { entries };
            }
            i = i + 1;
        }
        entries.push((wanted, value));
        assert(pairs_of(entries@) =~= before.push((key@, value@)));
        StringMap { entries }
    }

    /// The JSON object for the map.
    pub fn to_value(&self) -> (r: serde_json::Value)
        ensures
            json_tree(r) == map_tree(self@),
    {
        proof {
            use_type_invariant(self);
        }
        let mut members: Vec<(String, serde_json::Value)> = Vec::new();
        let mut i: usize = 0;
        while i < self.entries.len()
            invariant
                i <= self.entries.len(),
                json_members(members@).len() == i,
                forall|k: int|
                    0 <= k < i ==> #[trigger] json_members(members@)[k] == (
                        self@[k].0,
                        Json::Text(self@[k].1),
                    ),
            decreases self.entries.len() - i,
        {
            add_member(
                &mut members,
                self.entries[i].0.as_str(),
                text_value(self.entries[i].1.as_str()),
            );
            i = i + 1;
        }
        assert(json_members(members@) =~= map_tree(self@)->Object_0);
        assert(distinct_names(json_members(members@)));
        json_object(members)
    }
}

impl Clone for StringMap {
    fn clone(&self) -> (r: Self)
        ensures
            r@ == self@,
    {
        proof {
            use_type_invariant(self);
        }
        let mut entries: Vec<(String, String)> = Vec::new();
        let mut i: usize = 0;
        while i < self.entries.len()
            invariant
                i <= self.entries.len(),
                entries@.len() == i,
                forall|k: int|
                    0 <= k < i ==> (#[trigger] entries@[k]).0@ == self.entries@[k].0@
                        && entries@[k].1@ == self.entries@[k].1@,
            decreases self.entries.len() - i,
        {
            entries.push((self.entries[i].0.clone(), self.entries[i].1.clone()));
            i = i + 1;
        }
        assert(pairs_of(entries@) =~= pairs_of(self.entries@));
        StringMap { entries }
    }
}

impl StringMap {
    /// Whether every pair of the map is one of the other map.
    fn is_within(&self, other: &Self) -> (r: bool)
        ensures
            r == has_pairs(self@, other@),
    {
        proof {
            use_type_invariant(other);
        }
        let mut i: usize = 0;
        while i < self.entries.len()
            invariant
                i <= self.entries.len(),
                distinct_keys(other@),
                forall|k: int| 0 <= k < i ==> other@.contains(#[trigger] self@[k]),
            decreases self.entries.len() - i,
        {
            let ghost pair = self@[i as int];
            assert(pair == (self.entries@[i as int].0@, self.entries@[i as int].1@));
            let found: bool = match other.get(self.entries[i].0.as_str()) {
                Some(value) => {
                    let ghost at = choose|j: int|
                        0 <= j < other@.len() && #[trigger] other@[j] == (pair.0, value@);
                    let same: bool = value.to_owned() == self.entries[i].1;
                    assert(same == other@.contains(pair)) by {
                        if other@.contains(pair) {
                            let k = other@.index_of(pair);
                            assert(other@[k].0 == other@[at].0);
                            assert(k == at);
                        }
                    }
                    same
                },
                None => {
                    assert(!other@.contains(pair)) by {
                        if other@.contains(pair) {
                            assert(other@[other@.index_of(pair)].0 == pair.0);
                        }
                    }
                    false
                },
            };
            if !found {
                return false;
            }
            i = i + 1;
        }
        true
    }
}

/// Two maps are equal where they have the same pairs, in whatever order those
/// were put in.
impl PartialEq for StringMap {
    fn eq(&self, other: &Self) -> (r: bool) {
        self.is_within(other) && other.is_within(self)
    }
}

impl vstd::std_specs::cmp::PartialEqSpecImpl for StringMap {
    open spec fn obeys_eq_spec() -> bool {
        true
    }

    open spec fn eq_spec(&self, other: &Self) -> bool {
        has_pairs(self@, other@) && has_pairs(other@, self@)
    }
}

} // verus!

//! What maps from text to text mean.
use vstd::prelude::*;
use vstd::std_specs::cmp::PartialEqSpec;

use crate::string_map::{distinct_keys, has_key, has_pairs, StringMap};

verus! {

/// Two maps are equal just where a pair of one is a pair of the other, whichever
/// pair it is. The order of the pairs does not matter.
pub proof fn equal_maps_have_the_same_pairs(a: StringMap, b: StringMap)
    ensures
        a.eq_spec(&b) <==> forall|pair: (Seq<char>, Seq<char>)|
            a@.contains(pair) == #[trigger] b@.contains(pair),
{
    if a.eq_spec(&b) {
        assert forall|pair: (Seq<char>, Seq<char>)| a@.contains(pair) == #[trigger] b@.contains(
            pair,
        ) by {
            if a@.contains(pair) {
                assert(b@.contains(a@[a@.index_of(pair)]));
            }
            if b@.contains(pair) {
                assert(a@.contains(b@[b@.index_of(pair)]));
            }
        }
    }
    if forall|pair: (Seq<char>, Seq<char>)| a@.contains(pair) == #[trigger] b@.contains(pair) {
        assert forall|i: int| 0 <= i < a@.len() implies b@.contains(#[trigger] a@[i]) by {
            assert(a@.contains(a@[i]));
        }
        assert forall|i: int| 0 <= i < b@.len() implies a@.contains(#[trigger] b@[i]) by {
            assert(b@.contains(b@[i]));
        }
    }
}

/// A map has a key just where one of its pairs has it, and one more pair adds
/// its key.
pub proof fn pairs_bring_their_keys(
    pairs: Seq<(Seq<char>, Seq<char>)>,
    pair: (Seq<char>, Seq<char>),
    key: Seq<char>,
)
    ensures
        !has_key(Seq::empty(), key),
        has_key(pairs.push(pair), key) <==> has_key(pairs, key) || pair.0 == key,
{
    let more = pairs.push(pair);
    if has_key(pairs, key) {
        let i = choose|i: int| 0 <= i < pairs.len() && #[trigger] pairs[i].0 == key;
        assert(more[i].0 == key);
    }
    if pair.0 == key {
        assert(more[pairs.len() as int].0 == key);
    }
    if has_key(more, key) {
        let i = choose|i: int| 0 <= i < more.len() && #[trigger] more[i].0 == key;
        if i < pairs.len() {
            assert(pairs[i].0 == key);
        }
    }
}

/// The pairs of a map with distinct keys give each key one value.
pub proof fn keys_have_one_value(
    pairs: Seq<(Seq<char>, Seq<char>)>,
    key: Seq<char>,
    a: Seq<char>,
    b: Seq<char>,
)
    requires
        distinct_keys(pairs),
        pairs.contains((key, a)),
        pairs.contains((key, b)),
    ensures
        a == b,
{
    let i = pairs.index_of((key, a));
    let j = pairs.index_of((key, b));
    assert(pairs[i].0 == pairs[j].0);
}

/// Some pairs stand among others just where each of them does.
pub proof fn pairs_are_found_one_by_one(
    a: Seq<(Seq<char>, Seq<char>)>,
    b: Seq<(Seq<char>, Seq<char>)>,
    pair: (Seq<char>, Seq<char>),
)
    ensures
        has_pairs(Seq::empty(), b),
        has_pairs(a.push(pair), b) <==> has_pairs(a, b) && b.contains(pair),
{
    let more = a.push(pair);
    if has_pairs(more, b) {
        assert forall|i: int| 0 <= i < a.len() implies b.contains(#[trigger] a[i]) by {
            assert(more[i] == a[i]);
        }
        assert(more[a.len() as int] == pair);
    }
    if has_pairs(a, b) && b.contains(pair) {
        assert forall|i: int| 0 <= i < more.len() implies b.contains(#[trigger] more[i]) by {
            if i < a.len() {
                assert(more[i] == a[i]);
            }
        }
    }
}

} // verus!

//! Maps from strings to strings, as Kubernetes has them for labels, annotations and quantities.

use crate::text::{opt_view, same};
use vstd::prelude::*;

verus! {

/// The value at `key` of a map that may not be there.
pub open spec fn lookup(map: Option<Map<Seq<char>, Seq<char>>>, key: Seq<char>) -> Option<
    Seq<char>,
> {
    match map {
        Some(map) => if map.contains_key(key) {
            Some(map[key])
        } else {
            None
        },
        None => None,
    }
}

/// A map that is there gives the value at a key exactly where it has the key, whatever the value
/// is. One that is not there gives nothing.
pub proof fn lemma_lookup(map: Map<Seq<char>, Seq<char>>, key: Seq<char>, value: Seq<char>)
    ensures
        lookup(Some(map), key) is Some <==> map.contains_key(key),
        map.contains_key(key) ==> lookup(Some(map), key) == Some(map[key]),
        lookup(Some(map.insert(key, value)), key) == Some(value),
        lookup(None, key) is None,
{
}

/// A map from strings to strings. No key occurs twice among the entries.
#[derive(Debug)]
pub struct StringMap {
    entries: Vec<(String, String)>,
}

impl View for StringMap {
    type V = Map<Seq<char>, Seq<char>>;

    closed spec fn view(&self) -> Map<Seq<char>, Seq<char>> {
        Map::new(
            |key: Seq<char>| self.position(key) is Some,
            |key: Seq<char>| self.entries@[self.position(key)->0].1@,
        )
    }
}

impl StringMap {
    /// Where the entry of `key` stands.
    spec fn position(self, key: Seq<char>) -> Option<int> {
        if exists|i: int| 0 <= i < self.entries@.len() && (#[trigger] self.entries@[i]).0@ == key {
            Some(
                choose|i: int|
                    0 <= i < self.entries@.len() && (#[trigger] self.entries@[i]).0@ == key,
            )
        } else {
            None
        }
    }

    #[verifier::type_invariant]
    spec fn keys_are_unique(self) -> bool {
        forall|i: int, j: int|
            0 <= i < j < self.entries@.len() ==> (#[trigger] self.entries@[i]).0@ != (
            #[trigger] self.entries@[j]).0@
    }

    /// The map without entries.
    pub fn new() -> (r: StringMap)
        ensures
            r@ == Map::<Seq<char>, Seq<char>>::empty(),
    {
        StringMap { entries: Vec::new() }
    }

    /// Where the entry of `key` stands among `entries`.
    fn find(entries: &Vec<(String, String)>, key: &str) -> (r: Option<usize>)
        ensures
            r matches Some(i) ==> i < entries@.len() && entries@[i as int].0@ == key@,
            r is None ==> forall|i: int|
                0 <= i < entries@.len() ==> (#[trigger] entries@[i]).0@ != key@,
    {
        let mut i: usize = 0;
        while i < entries.len()
            invariant
                i <= entries@.len(),
                forall|j: int| 0 <= j < i ==> (#[trigger] entries@[j]).0@ != key@,
            decreases entries@.len() - i,
        {
            if same(&entries[i].0, key) {
                return Some(i);
            }
            i = i + 1;
        }
        None
    }

    /// The value at `key`, if there is one.
    pub fn get(&self, key: &str) -> (r: Option<&String>)
        ensures
            r is Some <==> self@.contains_key(key@),
            r matches Some(value) ==> value@ == self@[key@],
    {
        proof {
            use_type_invariant(self);
        }
        match StringMap::find(&self.entries, key) {
            Some(i) => Some(&self.entries[i].1),
            None => None,
        }
    }

    /// This map with `value` at `key`, in place of what may have stood there.
    pub fn with(self, key: String, value: String) -> (r: StringMap)
        ensures
            r@ == self@.insert(key@, value@),
    {
        proof {
            use_type_invariant(&self);
        }
        let ghost before = self;
        let ghost (k, v) = (key@, value@);
        let mut entries = self.entries;
        let position = StringMap::find(&entries, key.as_str());
        match position {
            Some(i) => {
                entries[i] = (key, value);
            },
            None => {
                entries.push((key, value));
            },
        }
        let r = StringMap { entries };
        proof {
            let expected = before@.insert(k, v);
            assert forall|key: Seq<char>|
                #![trigger r@.dom().contains(key)]
                #![trigger expected.dom().contains(key)]
                r@.dom().contains(key) == expected.dom().contains(key) && (r@.dom().contains(key)
                    ==> r@[key] == expected[key]) by {
                if let Some(i) = before.position(key) {
                    assert(r.entries@[i].0@ == key);
                }
                if let Some(i) = r.position(key) {
                    if i < before.entries@.len() {
                        assert(before.entries@[i].0@ == r.entries@[i].0@);
                    }
                }
                let last = match position {
                    Some(i) => i as int,
                    None => before.entries@.len() as int,
                };
                assert(r.entries@[last].0@ == k);
            }
            assert(r@ =~= expected);
        }
        r
    }

    /// The entries, each key once.
    pub fn entries(&self) -> (r: &Vec<(String, String)>)
        ensures
            forall|i: int|
                0 <= i < r@.len() ==> self@.contains_key((#[trigger] r@[i]).0@) && self@[r@[i].0@]
                    == r@[i].1@,
            forall|key: Seq<char>| #[trigger]
                self@.contains_key(key) ==> exists|i: int|
                    0 <= i < r@.len() && (#[trigger] r@[i]).0@ == key,
            forall|i: int, j: int|
                0 <= i < j < r@.len() ==> (#[trigger] r@[i]).0@ != (#[trigger] r@[j]).0@,
    {
        proof {
            use_type_invariant(self);
        }
        &self.entries
    }
}

/// The value at `key` of a map that may not be there.
pub fn get_in(map: &Option<StringMap>, key: &str) -> (r: Option<String>)
    ensures
        opt_view(r) == lookup(opt_view(*map), key@),
{
    match map {
        Some(map) => match map.get(key) {
            Some(value) => Some(value.clone()),
            None => None,
        },
        None => None,
    }
}

} // verus!

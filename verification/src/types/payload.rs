//! Named JSON values: the body of a request, its query strings, the volatile
//! data of a response.
use crate::json::{fields_of, json_of, lemma_fields_of_entry, Json};
use crate::keyed::{distinct_keys, find, has_key, index_of};
use serde_json::Value;
use vstd::prelude::*;

verus! {

/// A mapping from names to JSON values. Each name is held once; the order
/// of the names carries no meaning for what the mapping holds. (`==` is
/// stricter: it also asks for the same order of arrival.)
#[derive(Debug, PartialEq)]
pub struct Payload {
    entries: Vec<(String, Value)>,
}

impl View for Payload {
    type V = Map<Seq<char>, Json>;

    closed spec fn view(&self) -> Map<Seq<char>, Json> {
        fields_of(self.entries@)
    }
}

impl Payload {
    #[verifier::type_invariant]
    spec fn well_formed(self) -> bool {
        distinct_keys(self.entries@)
    }

    /// The empty mapping.
    pub fn new() -> (r: Payload)
        ensures
            r@ == Map::<Seq<char>, Json>::empty(),
    {
        let r = Payload { entries: Vec::new() };
        assert(r@ =~= Map::<Seq<char>, Json>::empty());
        r
    }

    /// The mapping that holds `entries`, or `None` where a key comes twice in
    /// them.
    pub fn from_entries(entries: Vec<(String, Value)>) -> (r: Option<Payload>)
        ensures
            r is Some <==> distinct_keys(entries@),
            r is Some ==> r->0@ == fields_of(entries@),
    {
        let mut i: usize = 0;
        while i < entries.len()
            invariant
                i <= entries@.len(),
                forall|a: int, b: int|
                    0 <= a < b < i ==> #[trigger] entries@[a].0@ != #[trigger] entries@[b].0@,
            decreases entries@.len() - i,
        {
            let mut j: usize = 0;
            while j < i
                invariant
                    j <= i < entries@.len(),
                    forall|a: int| 0 <= a < j ==> #[trigger] entries@[a].0@ != entries@[i as int].0@,
                decreases i - j,
            {
                if entries[j].0 == entries[i].0 {
                    return None;
                }
                j = j + 1;
            }
            i = i + 1;
        }
        Some(Payload { entries })
    }

    /// The pairs of the mapping, each name once.
    pub fn entries(&self) -> (r: &Vec<(String, Value)>)
        ensures
            distinct_keys(r@),
            fields_of(r@) == self@,
    {
        proof {
            use_type_invariant(self);
        }
        &self.entries
    }

    /// Whether the mapping holds nothing.
    pub fn is_empty(&self) -> (r: bool)
        ensures
            r == (self@ == Map::<Seq<char>, Json>::empty()),
    {
        let r = self.entries.len() == 0;
        proof {
            if r {
                assert(self@ =~= Map::<Seq<char>, Json>::empty());
            } else {
                assert(has_key(self.entries@, self.entries@[0].0@));
                assert(self@.contains_key(self.entries@[0].0@));
            }
        }
        r
    }

    /// The value held under `key`, if there is one.
    pub fn get(&self, key: &str) -> (r: Option<&Value>)
        ensures
            match r {
                Some(value) => self@.contains_key(key@) && self@[key@] == json_of(*value),
                None => !self@.contains_key(key@),
            },
    {
        let owned = key.to_owned();
        match find(&self.entries, &owned) {
            Some(i) => {
                proof {
                    use_type_invariant(self);
                    lemma_fields_of_entry(self.entries@, i as int);
                }
                Some(&self.entries[i].1)
            },
            None => None,
        }
    }

    /// The mapping with `value` under `key`, in place of what was held there.
    pub fn insert(self, key: String, value: Value) -> (r: Payload)
        ensures
            r@ == self@.insert(key@, json_of(value)),
    {
        proof {
            use_type_invariant(&self);
        }
        let found = find(&self.entries, &key);
        let mut entries = self.entries;
        let ghost before = entries@;
        match found {
            Some(i) => {
                entries.set(i, (key, value));
                proof {
                    let after = entries@;
                    assert forall|a: int, b: int| 0 <= a < b < after.len() implies after[a].0@
                        != after[b].0@ by {
                        assert(after[a].0@ == before[a].0@);
                        assert(after[b].0@ == before[b].0@);
                    }
                    lemma_insert_at(before, after, i as int);
                }
            },
            None => {
                entries.push((key, value));
                proof {
                    let after = entries@;
                    assert forall|a: int, b: int| 0 <= a < b < after.len() implies after[a].0@
                        != after[b].0@ by {
                        assert(after[a].0@ == before[a].0@);
                        if b < before.len() {
                            assert(after[b].0@ == before[b].0@);
                        } else {
                            assert(!has_key(before, key@));
                        }
                    }
                    lemma_insert_last(before, after);
                }
            },
        }
        Payload { entries }
    }
}

/// Replacing the value of one pair changes the map at that pair's key only.
proof fn lemma_insert_at(before: Seq<(String, Value)>, after: Seq<(String, Value)>, at: int)
    requires
        distinct_keys(before),
        distinct_keys(after),
        0 <= at < before.len(),
        after.len() == before.len(),
        after[at].0@ == before[at].0@,
        forall|i: int| 0 <= i < before.len() && i != at ==> after[i] == before[i],
    ensures
        fields_of(after) == fields_of(before).insert(after[at].0@, json_of(after[at].1)),
{
    let key = after[at].0@;
    let expected = fields_of(before).insert(key, json_of(after[at].1));
    assert forall|k: Seq<char>| fields_of(after).contains_key(k) <==> expected.contains_key(
        k,
    ) by {
        if has_key(after, k) {
            let i = index_of(after, k);
            assert(before[i].0@ == k);
        }
        if has_key(before, k) {
            let i = index_of(before, k);
            assert(after[i].0@ == k);
        }
        if k == key {
            assert(after[at].0@ == k);
        }
    }
    assert forall|k: Seq<char>| fields_of(after).contains_key(k) implies fields_of(after)[k]
        == expected[k] by {
        let i = index_of(after, k);
        lemma_fields_of_entry(after, i);
        if i != at {
            lemma_fields_of_entry(before, i);
            assert(before[i].0@ != before[at].0@);
        }
    }
    assert(fields_of(after) =~= expected);
}

/// Adding a pair under a new key adds that key to the map.
proof fn lemma_insert_last(before: Seq<(String, Value)>, after: Seq<(String, Value)>)
    requires
        distinct_keys(before),
        distinct_keys(after),
        after.len() == before.len() + 1,
        forall|i: int| 0 <= i < before.len() ==> after[i] == before[i],
    ensures
        fields_of(after) == fields_of(before).insert(after.last().0@, json_of(after.last().1)),
{
    let key = after.last().0@;
    let expected = fields_of(before).insert(key, json_of(after.last().1));
    assert forall|k: Seq<char>| fields_of(after).contains_key(k) <==> expected.contains_key(
        k,
    ) by {
        if has_key(after, k) {
            let i = index_of(after, k);
            if i < before.len() {
                assert(before[i].0@ == k);
            }
        }
        if has_key(before, k) {
            let i = index_of(before, k);
            assert(after[i].0@ == k);
        }
        if k == key {
            assert(after[after.len() - 1].0@ == k);
        }
    }
    assert forall|k: Seq<char>| fields_of(after).contains_key(k) implies fields_of(after)[k]
        == expected[k] by {
        let i = index_of(after, k);
        lemma_fields_of_entry(after, i);
        if i < before.len() {
            lemma_fields_of_entry(before, i);
            assert(after[i].0@ != after[after.len() - 1].0@);
        }
    }
    assert(fields_of(after) =~= expected);
}

} // verus!

//! A string-keyed typed store.
//!
//! Each entity of the engine lives in its own `Dictionary`, a typed
//! repository viewed as a `Map` from key views to value views.  Writing
//! appends; later writes shadow earlier ones, so the view of a write is
//! exactly `Map::insert`.

use vstd::prelude::*;

verus! {

/// A typed, string-keyed store.
pub struct Dictionary<V> {
    entries: Vec<(String, V)>,
}

/// The map described by a sequence of writes, later writes shadowing
/// earlier ones.
pub open spec fn map_of<V: View>(entries: Seq<(String, V)>) -> Map<Seq<char>, V::V>
    decreases entries.len(),
{
    if entries.len() == 0 {
        Map::empty()
    } else {
        map_of(entries.drop_last()).insert(entries.last().0@, entries.last().1@)
    }
}

impl<V: View> View for Dictionary<V> {
    type V = Map<Seq<char>, V::V>;

    closed spec fn view(&self) -> Map<Seq<char>, V::V> {
        map_of(self.entries@)
    }
}

impl<V: View> Dictionary<V> {
    /// An empty store.
    pub fn new() -> (d: Self)
        ensures
            d@ == Map::<Seq<char>, V::V>::empty(),
    {
        Dictionary { entries: Vec::new() }
    }
}

/// Reads the value stored under `key`, if any.
pub fn read_dictionary_value<'a, V: View>(dict: &'a Dictionary<V>, key: &String) -> (r: Option<
    &'a V,
>)
    ensures
        match r {
            Some(v) => dict@.contains_key(key@) && v@ == dict@[key@],
            None => !dict@.contains_key(key@),
        },
{
    let n: usize = dict.entries.len();
    let mut i: usize = n;
    proof {
        assert(dict.entries@.take(n as int) =~= dict.entries@);
    }
    while i > 0
        invariant
            i <= n,
            n == dict.entries@.len(),
            dict@.contains_key(key@) == map_of(dict.entries@.take(i as int)).contains_key(key@),
            map_of(dict.entries@.take(i as int)).contains_key(key@) ==> dict@[key@] == map_of(
                dict.entries@.take(i as int),
            )[key@],
        decreases i,
    {
        i = i - 1;
        proof {
            assert(dict.entries@.take(i as int + 1).drop_last() =~= dict.entries@.take(i as int));
            assert(dict.entries@.take(i as int + 1).last() == dict.entries@[i as int]);
        }
        if dict.entries[i].0 == *key {
            return Some(&dict.entries[i].1);
        }
    }
    proof {
        assert(dict.entries@.take(0) =~= Seq::<(String, V)>::empty());
    }
    None
}

/// Stores `value` under `key`, replacing whatever was there.
pub fn write_dictionary_value<V: View>(dict: &mut Dictionary<V>, key: String, value: V)
    ensures
        final(dict)@ == old(dict)@.insert(key@, value@),
{
    let ghost previous = dict.entries@;
    let ghost key_view = key@;
    let ghost value_view = value@;
    dict.entries.push((key, value));
    proof {
        assert(dict.entries@.drop_last() =~= previous);
        assert(dict.entries@.last().0@ == key_view && dict.entries@.last().1@ == value_view);
    }
}

} // verus!

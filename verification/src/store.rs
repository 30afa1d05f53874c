use vstd::hash_map::StringHashMap;
use vstd::map::*;
use vstd::prelude::*;

verus! {

/// The type keys are addressed by.
pub type Key = String;

/// A lookup request: the key whose entry is wanted.
#[derive(Debug)]
pub struct Index {
    pub key: Key,
}

/// A stored key/value pair.
#[derive(Debug)]
pub struct Entry {
    pub key: Key,
    pub value: String,
}

/// The state a string-to-string map holds, as a mathematical map over
/// character sequences.
spec fn value_views(m: Map<Seq<char>, String>) -> Map<Seq<char>, Seq<char>> {
    m.map_values(|v: String| v@)
}

proof fn lemma_value_views_insert(m: Map<Seq<char>, String>, k: Seq<char>, v: String)
    ensures
        value_views(m.insert(k, v)) == value_views(m).insert(k, v@),
{
    assert_maps_equal!(value_views(m.insert(k, v)), value_views(m).insert(k, v@));
}

/// The generic store facade: raw get/set of arbitrary key/value pairs for
/// callers that need direct storage access unrelated to rendezvous. It is not
/// part of the coordination algorithm and shares no keys with it.
pub struct KvStore {
    entries: StringHashMap<String>,
}

impl View for KvStore {
    type V = Map<Seq<char>, Seq<char>>;

    closed spec fn view(&self) -> Map<Seq<char>, Seq<char>> {
        value_views(self.entries@)
    }
}

impl KvStore {
    /// An empty store: no key holds a value.
    pub fn new() -> (r: Self)
        ensures
            r@ == Map::<Seq<char>, Seq<char>>::empty(),
    {
        let entries = StringHashMap::new();
        let r = KvStore { entries };
        proof {
            assert_maps_equal!(r@, Map::<Seq<char>, Seq<char>>::empty());
        }
        r
    }

    /// Stores the entry's value under its key, replacing any previous value
    /// held there and leaving every other key untouched.
    pub fn set(&mut self, entry: Entry)
        ensures
            final(self)@ == old(self)@.insert(entry.key@, entry.value@),
    {
        let ghost entries_before = self.entries@;
        let ghost key_view = entry.key@;
        let ghost value = entry.value;
        self.entries.insert(entry.key, entry.value);
        proof {
            lemma_value_views_insert(entries_before, key_view, value);
        }
    }

    /// The entry under the requested key, or `None` where no value was ever
    /// set for it.
    pub fn get(&self, index: &Index) -> (r: Option<Entry>)
        ensures
            match r {
                Some(e) => self@.contains_key(index.key@) && e.key@ == index.key@ && e.value@
                    == self@[index.key@],
                None => !self@.contains_key(index.key@),
            },
    {
        match self.entries.get(index.key.as_str()) {
            Some(v) => Some(Entry { key: index.key.clone(), value: v.clone() }),
            None => None,
        }
    }
}

/// Store round trip. `set(k, v)` makes the store's state exactly the old state
/// with `v` bound at `k`; on that state, `get`'s contract owes `v` back for
/// `k`, unchanged, while every other key — in particular one that was never
/// set — still holds exactly what it held before, or stays absent.
pub proof fn lemma_store_round_trip(
    state: Map<Seq<char>, Seq<char>>,
    key: Seq<char>,
    value: Seq<char>,
    other: Seq<char>,
)
    requires
        other != key,
    ensures
        state.insert(key, value).contains_key(key),
        state.insert(key, value)[key] == value,
        state.insert(key, value).contains_key(other) == state.contains_key(other),
        state.contains_key(other) ==> state.insert(key, value)[other] == state[other],
{
}

} // verus!

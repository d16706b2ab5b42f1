//! The response catalog: the message kept for each symbolic key.

use vstd::hash_map::StringHashMap;
use vstd::prelude::*;

verus! {

/// The character sequences of a list of `(key, message)` entries.
pub open spec fn entry_views(entries: Seq<(&str, &str)>) -> Seq<(Seq<char>, Seq<char>)> {
    Seq::new(entries.len(), |i: int| (entries[i].0@, entries[i].1@))
}

/// The mapping that a list of `(key, message)` entries stands for. Keys are
/// unique in it: where a key is listed more than once, its last entry counts.
pub open spec fn catalog_of(entries: Seq<(Seq<char>, Seq<char>)>) -> Map<Seq<char>, Seq<char>>
    decreases entries.len(),
{
    if entries.len() == 0 {
        Map::empty()
    } else {
        catalog_of(entries.drop_last()).insert(entries.last().0, entries.last().1)
    }
}

/// `entries` has an entry of `key`.
pub open spec fn lists(entries: Seq<(Seq<char>, Seq<char>)>, key: Seq<char>) -> bool {
    exists|i: int| 0 <= i < entries.len() && (#[trigger] entries[i]).0 == key
}

/// The entry of `entries` at `at` is one of `key`, and no later one is.
pub open spec fn is_last_entry_of(
    entries: Seq<(Seq<char>, Seq<char>)>,
    key: Seq<char>,
    at: int,
) -> bool {
    &&& 0 <= at < entries.len()
    &&& entries[at].0 == key
    &&& forall|later: int| at < later < entries.len() ==> (#[trigger] entries[later]).0 != key
}

/// The catalog of a list holds the keys that the list has entries of, and no
/// others.
pub proof fn lemma_catalog_holds_the_listed_keys(
    entries: Seq<(Seq<char>, Seq<char>)>,
    key: Seq<char>,
)
    ensures
        catalog_of(entries).contains_key(key) <==> lists(entries, key),
    decreases entries.len(),
{
    if entries.len() > 0 {
        let earlier = entries.drop_last();
        lemma_catalog_holds_the_listed_keys(earlier, key);
        if entries.last().0 != key {
            if lists(entries, key) {
                let i = choose|i: int| 0 <= i < entries.len() && (#[trigger] entries[i]).0 == key;
                assert(earlier[i].0 == key);
            }
            if lists(earlier, key) {
                let i = choose|i: int| 0 <= i < earlier.len() && (#[trigger] earlier[i]).0 == key;
                assert(entries[i].0 == key);
            }
        }
    }
}

/// The catalog of a list gives a key the message of the last entry that the
/// list has of it.
pub proof fn lemma_catalog_holds_the_last_entry(
    entries: Seq<(Seq<char>, Seq<char>)>,
    key: Seq<char>,
    at: int,
)
    requires
        is_last_entry_of(entries, key, at),
    ensures
        catalog_of(entries).contains_key(key),
        catalog_of(entries)[key] == entries[at].1,
    decreases entries.len(),
{
    if at < entries.len() - 1 {
        let earlier = entries.drop_last();
        assert forall|later: int| at < later < earlier.len() implies (#[trigger] earlier[later]).0
            != key by {
            assert(earlier[later] == entries[later]);
        }
        lemma_catalog_holds_the_last_entry(earlier, key, at);
    }
}

/// An immutable mapping from symbolic keys to prepared messages. Its view is
/// the mapping from each key to its message, both as character sequences.
pub struct Catalog {
    entries: StringHashMap<String>,
}

impl View for Catalog {
    type V = Map<Seq<char>, Seq<char>>;

    closed spec fn view(&self) -> Map<Seq<char>, Seq<char>> {
        self.entries@.map_values(|message: String| message@)
    }
}

impl Catalog {
    /// Builds the catalog that `entries` lists, each entry a key and its
    /// message.
    pub fn build(entries: &[(&str, &str)]) -> (catalog: Catalog)
        ensures
            catalog@ == catalog_of(entry_views(entries@)),
    {
        let mut map: StringHashMap<String> = StringHashMap::new();
        let mut i: usize = 0;
        while i < entries.len()
            invariant
                i <= entries.len(),
                map@.map_values(|message: String| message@) == catalog_of(
                    entry_views(entries@).take(i as int),
                ),
            decreases entries.len() - i,
        {
            let (key, message) = entries[i];
            map.insert(key.to_owned(), message.to_owned());
            proof {
                let listed = entry_views(entries@);
                assert(listed.take(i + 1).drop_last() =~= listed.take(i as int));
            }
            i += 1;
        }
        assert(entry_views(entries@).take(i as int) =~= entry_views(entries@));
        Catalog { entries: map }
    }

    /// Looks `key` up. Absence is an answer of its own, distinct from an
    /// empty message.
    pub fn lookup(&self, key: &str) -> (found: Option<&str>)
        ensures
            match found {
                Some(message) => self@.contains_key(key@) && message@ == self@[key@],
                None => !self@.contains_key(key@),
            },
    {
        match self.entries.get(key) {
            Some(message) => Some(message.as_str()),
            None => None,
        }
    }
}

} // verus!

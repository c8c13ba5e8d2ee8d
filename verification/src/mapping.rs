//! A mapping from text keys to text values, and the report of a lookup in it.

use vstd::hash_map::StringHashMap;
use vstd::prelude::*;
use vstd::string::StringExecFns;

verus! {

/// An associative structure in which every key has at most one value.
pub struct Mapping {
    entries: StringHashMap<String>,
}

impl View for Mapping {
    type V = Map<Seq<char>, Seq<char>>;

    closed spec fn view(&self) -> Map<Seq<char>, Seq<char>> {
        self.entries@.map_values(|value: String| value@)
    }
}

impl Mapping {
    /// A mapping without entries.
    pub fn new() -> (mapping: Mapping)
        ensures
            mapping@ == Map::<Seq<char>, Seq<char>>::empty(),
    {
        let mapping = Mapping { entries: StringHashMap::new() };
        assert(mapping@ =~= Map::<Seq<char>, Seq<char>>::empty());
        mapping
    }

    /// Binds `key` to `value`, replacing what `key` was bound to before.
    pub fn insert(&mut self, key: String, value: String)
        ensures
            final(self)@ == old(self)@.insert(key@, value@),
    {
        self.entries.insert(key, value);
        assert(self@ =~= old(self)@.insert(key@, value@));
    }

    /// The value that `key` is bound to, if it is bound at all.
    pub fn get(&self, key: &str) -> (found: Option<&String>)
        ensures
            value_view(found) == self@.get(key@),
    {
        self.entries.get(key)
    }
}

/// What a lookup found, as text.
pub open spec fn value_view(found: Option<&String>) -> Option<Seq<char>> {
    match found {
        Some(value) => Some(value@),
        None => None,
    }
}

/// The line that reports the outcome of a lookup: the value after the words
/// `Found: ` where the key was bound, and `Not found` where it was not.
pub open spec fn lookup_report(found: Option<Seq<char>>) -> Seq<char> {
    match found {
        Some(value) => "Found: "@ + value,
        None => "Not found"@,
    }
}

/// Writes the line that reports the outcome `found` of a lookup.
pub fn report_lookup(found: Option<&String>) -> (line: String)
    ensures
        line@ == lookup_report(value_view(found)),
{
    match found {
        Some(value) => {
            let mut line = String::from_str("Found: ");
            line.append(value.as_str());
            line
        },
        None => String::from_str("Not found"),
    }
}

} // verus!

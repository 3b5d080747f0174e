//! A number for each neighbourhood name.

use vstd::prelude::*;
use vstd::hash_map::StringHashMap;

verus! {

/// A finite map from neighbourhood names to numbers, such as the cases
/// counted or the people living in each neighbourhood.
pub struct NameTable {
    entries: StringHashMap<u32>,
}

impl View for NameTable {
    type V = Map<Seq<char>, u32>;

    closed spec fn view(&self) -> Map<Seq<char>, u32> {
        self.entries@
    }
}

impl NameTable {
    /// A table with no names.
    pub fn new() -> (table: NameTable)
        ensures
            table@ == Map::<Seq<char>, u32>::empty(),
    {
        NameTable { entries: StringHashMap::new() }
    }

    /// Sets the number of `name`, whether or not it had one.
    pub fn insert(&mut self, name: String, value: u32)
        ensures
            final(self)@ == old(self)@.insert(name@, value),
    {
        self.entries.insert(name, value);
    }

    /// The number of `name`, if it has one.
    pub fn get(&self, name: &str) -> (value: Option<u32>)
        ensures
            value == (if self@.contains_key(name@) {
                Some(self@[name@])
            } else {
                None
            }),
    {
        match self.entries.get(name) {
            Some(v) => Some(*v),
            None => None,
        }
    }

    /// Whether `name` has a number.
    pub fn contains(&self, name: &str) -> (present: bool)
        ensures
            present == self@.contains_key(name@),
    {
        self.entries.contains_key(name)
    }

    /// How many names have a number.
    pub fn len(&self) -> (count: usize)
        ensures
            count == self@.len(),
    {
        self.entries.len()
    }
}

} // verus!

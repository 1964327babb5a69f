//! A dictionary that holds no entry, for code that reads dictionaries of properties.

use vstd::prelude::*;

verus! {

/// A dictionary of properties with no entry: every lookup finds nothing.
pub struct DictionaryMock;

impl DictionaryMock {
    /// The text stored under `key`: none.
    pub fn get_string(&self, key: &str) -> (r: Option<String>)
        ensures
            r is None,
    {
        None
    }

    /// The flag stored under `key`: none.
    pub fn get_bool(&self, key: &str) -> (r: Option<bool>)
        ensures
            r is None,
    {
        None
    }
}

} // verus!

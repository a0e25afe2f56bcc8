//! Named presets of well-known repos.
use vstd::prelude::*;

use crate::table::{lookup, StringTable};

verus! {

/// The preset table: preset name to repo URL.
#[derive(Debug)]
pub struct Presets {
    pub preset: StringTable,
}

impl Presets {
    /// The repo URL of the preset named `query`; `None` when there is no such preset.
    pub fn get(&self, query: String) -> (r: Option<String>)
        ensures
            r matches Some(v) ==> lookup(self.preset@, query@) == Some(v@),
            r is None ==> lookup(self.preset@, query@) is None,
    {
        self.preset.get(query.as_str())
    }
}

} // verus!

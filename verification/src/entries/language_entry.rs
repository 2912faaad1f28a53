//! Single language entry object.

use vstd::prelude::*;

verus! {

/// An earlier name for the tag concept: one language that file entries can
/// reference by bit index.
///
/// Kept for callers that still use the old name; the decode pipeline itself
/// produces [`TagEntry`](super::TagEntry) values.
#[derive(Debug, Default, Clone, PartialEq, Eq)]
pub struct LanguageEntry {
    /// Id of the language entry.
    pub id: u8,
    /// Name of the language in the language-region form with underscores.
    pub name: String,
}

/// Mathematical image of a [`LanguageEntry`].
pub struct LanguageEntryV {
    /// Id of the language entry.
    pub id: u8,
    /// Name of the language entry.
    pub name: Seq<char>,
}

impl View for LanguageEntry {
    type V = LanguageEntryV;

    open spec fn view(&self) -> LanguageEntryV {
        LanguageEntryV { id: self.id, name: self.name@ }
    }
}

} // verus!

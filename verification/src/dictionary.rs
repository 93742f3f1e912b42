//! What every dictionary backend offers.

use crate::word::Word;
use markdown_builder::Markdown;
use vstd::prelude::*;

verus! {

/// A dictionary backend. It is made once, from its configuration, and then
/// answers lookups.
///
/// A backend finds a word exactly when it has a document for it: `exits`
/// and `lookup_ditail` both answer by [`Dictionary::knows`].
pub trait Dictionary: Sized {
    /// The failure of this backend.
    type Error;

    /// What the backend is made from.
    type InitInput;

    /// Whether the dictionary holds the word `word`.
    spec fn knows(&self, word: Seq<char>) -> bool;

    /// Makes the backend. A backend that cannot be made is an error; there is
    /// no backend that works in part.
    fn init(input: &Self::InitInput) -> Result<Self, Self::Error>;

    /// Whether the dictionary holds `word`.
    fn exits(&self, word: &Word) -> (found: Result<bool, Self::Error>)
        ensures
            found matches Ok(known) ==> known == self.knows(word@),
    ;

    /// The document for `word`. A word that the dictionary does not hold has
    /// none, which is no error.
    fn lookup_ditail(&self, word: &Word) -> (detail: Result<Option<Markdown>, Self::Error>)
        ensures
            detail matches Ok(doc) ==> (doc is Some <==> self.knows(word@)),
    ;
}

/// Whatever `exits` and `lookup_ditail` answer for the same dictionary and
/// the same word, they agree: the word is found exactly when there is a
/// document for it.
pub proof fn lemma_found_iff_present<D: Dictionary>(
    dict: D,
    word: Word,
    found: Result<bool, D::Error>,
    detail: Result<Option<Markdown>, D::Error>,
)
    requires
        call_ensures(D::exits, (&dict, &word), found),
        call_ensures(D::lookup_ditail, (&dict, &word), detail),
    ensures
        found matches Ok(known) ==> known == dict.knows(word@),
        detail matches Ok(doc) ==> (doc is Some <==> dict.knows(word@)),
        found matches Ok(known) ==> (detail matches Ok(doc) ==> (known <==> doc is Some)),
{
}

} // verus!

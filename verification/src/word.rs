//! The lookup key of every dictionary: a text without surrounding
//! whitespace.

use crate::text::{lemma_trimmed_idempotent, trim, trimmed};
use vstd::prelude::*;
use vstd::std_specs::cmp::PartialEqSpecImpl;
use vstd::std_specs::convert::FromSpecImpl;

verus! {

/// A normalized lookup key. Two words are equal when their texts are.
#[derive(Debug, Eq, PartialOrd, Ord, Hash)]
pub struct Word(String);

impl View for Word {
    type V = Seq<char>;

    closed spec fn view(&self) -> Seq<char> {
        self.0@
    }
}

impl Word {
    /// Every word is its own normal form.
    #[verifier::type_invariant]
    closed spec fn normalized(self) -> bool {
        trimmed(self.0@) == self.0@
    }

    /// The word for `text`: `text` without its surrounding whitespace.
    pub fn new(text: &str) -> (word: Word)
        ensures
            word@ == trimmed(text@),
    {
        let core = trim(text);
        proof {
            lemma_trimmed_idempotent(text@);
        }
        Word(core.to_owned())
    }

    /// The text of the word.
    pub fn inner(self) -> (text: String)
        ensures
            text@ == self@,
            trimmed(text@) == text@,
    {
        proof {
            use_type_invariant(&self);
        }
        self.0
    }

    /// The text of the word, borrowed.
    pub fn as_str(&self) -> (text: &str)
        ensures
            text@ == self@,
            trimmed(text@) == text@,
    {
        proof {
            use_type_invariant(self);
        }
        self.0.as_str()
    }
}

impl PartialEq for Word {
    fn eq(&self, other: &Word) -> (equal: bool) {
        self.0 == other.0
    }
}

impl PartialEqSpecImpl for Word {
    open spec fn obeys_eq_spec() -> bool {
        true
    }

    open spec fn eq_spec(&self, other: &Word) -> bool {
        self@ == other@
    }
}

impl<'a> From<&'a str> for Word {
    fn from(value: &'a str) -> (word: Word)
        ensures
            word@ == trimmed(value@),
    {
        Word::new(value)
    }
}

/// Two strings with the same text are not known to be one value, so what
/// `from` gives is stated by its view, on `from` itself.
impl<'a> FromSpecImpl<&'a str> for Word {
    open spec fn obeys_from_spec() -> bool {
        false
    }

    open spec fn from_spec(value: &'a str) -> Word {
        arbitrary()
    }
}

impl From<String> for Word {
    fn from(value: String) -> (word: Word)
        ensures
            word@ == trimmed(value@),
    {
        Word::new(value.as_str())
    }
}

/// As for `&str`: what `from` gives is stated by its view.
impl FromSpecImpl<String> for Word {
    open spec fn obeys_from_spec() -> bool {
        false
    }

    open spec fn from_spec(value: String) -> Word {
        arbitrary()
    }
}

/// The text of the word that `word` holds, if it holds one.
pub open spec fn word_view(word: Option<Word>) -> Option<Seq<char>> {
    match word {
        Some(w) => Some(w@),
        None => None,
    }
}

/// The word made from the text of a word is that word again: normalizing
/// twice is normalizing once.
pub proof fn lemma_normalization_idempotent(text: Seq<char>)
    ensures
        trimmed(trimmed(text)) == trimmed(text),
{
    lemma_trimmed_idempotent(text);
}

} // verus!

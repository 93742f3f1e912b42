//! The registry of backends: which backends there are, which of them the
//! configuration chose, and the one dictionary that answers for it.

use crate::dictionary::Dictionary;
use crate::error::EtymoraError;
use crate::example::{example_blocks, ExampleDictionary};
use crate::markdown::blocks;
use crate::word::Word;
use markdown_builder::Markdown;
use vstd::prelude::*;

verus! {

/// The backend that the configuration chose, made and ready to answer.
#[derive(Debug)]
pub enum Dicts {
    ExampleDict(ExampleDictionary),
}

/// The choice of a backend, with what that backend is made from.
#[derive(Clone, Copy, Debug, PartialEq, Eq)]
pub enum DictConfigs {
    Example(()),
}

impl Default for DictConfigs {
    /// Without a configuration the example backend answers.
    fn default() -> (config: DictConfigs)
        ensures
            config == DictConfigs::Example(()),
    {
        DictConfigs::Example(())
    }
}

impl Dictionary for Dicts {
    type Error = EtymoraError;

    type InitInput = DictConfigs;

    /// The registry holds the words that its backend holds.
    open spec fn knows(&self, word: Seq<char>) -> bool {
        match self {
            Dicts::ExampleDict(dict) => dict.knows(word),
        }
    }

    /// Makes the backend that `input` chose.
    fn init(input: &DictConfigs) -> (made: Result<Dicts, EtymoraError>)
        ensures
            match *input {
                DictConfigs::Example(_) => made matches Ok(Dicts::ExampleDict(_)),
            },
    {
        match input {
            DictConfigs::Example(p) => match ExampleDictionary::init(p) {
                Ok(dict) => Ok(Dicts::ExampleDict(dict)),
                Err(error) => Err(EtymoraError::ExampleAdapter(error)),
            },
        }
    }

    fn exits(&self, word: &Word) -> (found: Result<bool, EtymoraError>)
        ensures
            match self {
                Dicts::ExampleDict(_) => found matches Ok(true),
            },
    {
        match self {
            Dicts::ExampleDict(dict) => match dict.exits(word) {
                Ok(known) => Ok(known),
                Err(error) => Err(EtymoraError::ExampleAdapter(error)),
            },
        }
    }

    fn lookup_ditail(&self, word: &Word) -> (detail: Result<Option<Markdown>, EtymoraError>)
        ensures
            match self {
                Dicts::ExampleDict(_) => detail matches Ok(Some(doc)) && blocks(doc)
                    == example_blocks(word@),
            },
    {
        match self {
            Dicts::ExampleDict(dict) => match dict.lookup_ditail(word) {
                Ok(doc) => Ok(doc),
                Err(error) => Err(EtymoraError::ExampleAdapter(error)),
            },
        }
    }
}

} // verus!

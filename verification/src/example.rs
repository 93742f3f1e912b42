//! The example backend: a dictionary that holds every word and says of each
//! how a real dictionary is configured.

use crate::dictionary::Dictionary;
use crate::markdown::{blocks, document, header1, paragraph, Block};
use crate::word::Word;
use markdown_builder::Markdown;
use vstd::prelude::*;
use vstd::string::StringExecFns;

verus! {

/// Where a sample configuration can be seen.
pub const CONFIG_URL: &'static str =
    "https://github.com/satler-git/etymora/blob/main/config-examples/etymora.lua";

/// The backend that is used while no dictionary is configured.
#[derive(Debug)]
pub struct ExampleDictionary;

/// The failure of the example backend. It never occurs.
#[derive(Debug, PartialEq, Eq, Structural)]
pub enum ExampleError {
    Error,
}

impl ExampleError {
    /// The text that describes the failure.
    pub fn message(&self) -> (text: String)
        ensures
            text@ == "Example error has occrued"@,
    {
        String::from_str("Example error has occrued")
    }
}

/// The blocks of the document that the example backend has for `word`.
pub open spec fn example_blocks(word: Seq<char>) -> Seq<Block> {
    seq![
        Block::Header1(word),
        Block::Paragraph(
            "This message will may be seen when you didn't add the dictionary configuration."@,
        ),
        Block::Paragraph(
            "The sample configuration can be viewed [here]("@ + CONFIG_URL@ + ")."@,
        ),
    ]
}

impl Dictionary for ExampleDictionary {
    type Error = ExampleError;

    type InitInput = ();

    /// The example backend holds every word.
    open spec fn knows(&self, word: Seq<char>) -> bool {
        true
    }

    fn init(input: &()) -> (made: Result<ExampleDictionary, ExampleError>)
        ensures
            made is Ok,
    {
        Ok(ExampleDictionary)
    }

    fn exits(&self, word: &Word) -> (found: Result<bool, ExampleError>)
        ensures
            found == Ok::<bool, ExampleError>(true),
    {
        Ok(true)
    }

    fn lookup_ditail(&self, word: &Word) -> (detail: Result<Option<Markdown>, ExampleError>)
        ensures
            detail matches Ok(Some(doc)) && blocks(doc) == example_blocks(word@),
    {
        let mut doc = document();
        header1(&mut doc, word.as_str());
        paragraph(
            &mut doc,
            "This message will may be seen when you didn't add the dictionary configuration.",
        );
        let link = String::from_str("The sample configuration can be viewed [here](").concat(
            CONFIG_URL,
        ).concat(").");
        paragraph(&mut doc, link.as_str());
        assert(blocks(doc) =~= example_blocks(word@));
        Ok(Some(doc))
    }
}

} // verus!

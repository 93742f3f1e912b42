//! What can go wrong while a Wiktionary data file is loaded.

use crate::outside::io_text;
use crate::text::begins_with;
use vstd::prelude::*;
use vstd::string::StringExecFns;

verus! {

/// A failure of the Wiktionary backend.
#[derive(Debug)]
pub enum WiktionaryError {
    /// A field of a record holds no `=`.
    IsNotDetail,
    /// A record holds no `word` field.
    TitleNotInclued,
    /// A record holds the named key twice, though it may occur only once.
    DuplicateField(String),
    /// A record holds the named key, which no field answers to.
    UnknownKey(String),
    /// The data file could not be opened.
    FileNotFound(std::io::Error),
    /// The data file could not be read.
    IO(std::io::Error),
}

/// The kind of a [`WiktionaryError`], with the key it names.
pub enum Fault {
    IsNotDetail,
    TitleNotInclued,
    DuplicateField(Seq<char>),
    UnknownKey(Seq<char>),
    FileNotFound,
    IO,
}

impl View for WiktionaryError {
    type V = Fault;

    open spec fn view(&self) -> Fault {
        match self {
            WiktionaryError::IsNotDetail => Fault::IsNotDetail,
            WiktionaryError::TitleNotInclued => Fault::TitleNotInclued,
            WiktionaryError::DuplicateField(key) => Fault::DuplicateField(key@),
            WiktionaryError::UnknownKey(key) => Fault::UnknownKey(key@),
            WiktionaryError::FileNotFound(_) => Fault::FileNotFound,
            WiktionaryError::IO(_) => Fault::IO,
        }
    }
}

impl WiktionaryError {
    /// Whether `text` describes this failure. A failure that names a key
    /// ends with the key; one of the file system begins as written here and
    /// goes on as the operating system words it.
    pub open spec fn says(&self, text: Seq<char>) -> bool {
        match self {
            WiktionaryError::IsNotDetail => text == "= does not inclued in this entry detail"@,
            WiktionaryError::TitleNotInclued => text == "This entry does not inclued the title"@,
            WiktionaryError::DuplicateField(key) => text
                == "This key may occur only once in an entry: "@ + key@,
            WiktionaryError::UnknownKey(key) => text == "This key is not known: "@ + key@,
            WiktionaryError::FileNotFound(_) => begins_with(text, "File Not found: "@),
            WiktionaryError::IO(_) => begins_with(text, "Io Error has occured: "@),
        }
    }

    /// The text that describes the failure.
    pub fn message(&self) -> (text: String)
        ensures
            self.says(text@),
    {
        match self {
            WiktionaryError::IsNotDetail => String::from_str(
                "= does not inclued in this entry detail",
            ),
            WiktionaryError::TitleNotInclued => String::from_str(
                "This entry does not inclued the title",
            ),
            WiktionaryError::DuplicateField(key) => String::from_str(
                "This key may occur only once in an entry: ",
            ).concat(key.as_str()),
            WiktionaryError::UnknownKey(key) => String::from_str("This key is not known: ").concat(
                key.as_str(),
            ),
            WiktionaryError::FileNotFound(error) => {
                let tail = io_text(error);
                let text = String::from_str("File Not found: ").concat(tail.as_str());
                assert(text@.subrange(0, "File Not found: "@.len() as int) =~= "File Not found: "@);
                text
            },
            WiktionaryError::IO(error) => {
                let tail = io_text(error);
                let text = String::from_str("Io Error has occured: ").concat(tail.as_str());
                assert(text@.subrange(0, "Io Error has occured: "@.len() as int)
                    =~= "Io Error has occured: "@);
                text
            },
        }
    }
}

} // verus!

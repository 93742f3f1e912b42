//! The dictionary made from a Wiktionary data file: an index from words to
//! their entries.

use crate::dictionary::Dictionary;
use crate::index::{index_get, index_insert, index_new, slots};
use crate::markdown::{blocks, document, header1, paragraph, Block};
use crate::wiktionary::entry::{parsed, Entry, UnknownKeys};
use crate::wiktionary::error::{Fault, WiktionaryError};
use crate::wiktionary::field::{all_fields, Field};
use crate::word::Word;
use markdown_builder::Markdown;
use rustc_hash::FxHashMap;
use vstd::prelude::*;
use vstd::string::StringExecFns;

verus! {

/// The dictionary after the lines `lines` were read into `entries`, one
/// after the other. Each line puts its entry under its word, in place of an
/// entry that an earlier line put there. The first line that is refused
/// ends the load with its error.
pub open spec fn loaded(
    entries: Map<Seq<char>, Map<Field, Seq<Seq<char>>>>,
    lines: Seq<Seq<char>>,
    unknown: UnknownKeys,
) -> Result<Map<Seq<char>, Map<Field, Seq<Seq<char>>>>, Fault>
    decreases lines.len(),
{
    if lines.len() == 0 {
        Ok(entries)
    } else {
        match parsed(lines[0], unknown) {
            Err(fault) => Err(fault),
            Ok((word, entry)) => loaded(entries.insert(word, entry), lines.drop_first(), unknown),
        }
    }
}

/// The word of the record `line`, where the record is read without error.
pub open spec fn word_of(line: Seq<char>, unknown: UnknownKeys) -> Option<Seq<char>> {
    match parsed(line, unknown) {
        Ok((word, _)) => Some(word),
        Err(_) => None,
    }
}

/// The entry of the record `line`, where the record is read without error.
pub open spec fn entry_of(line: Seq<char>, unknown: UnknownKeys) -> Map<Field, Seq<Seq<char>>> {
    match parsed(line, unknown) {
        Ok((_, entry)) => entry,
        Err(_) => Map::empty(),
    }
}

/// A load succeeds exactly when every line is read without error. The
/// dictionary then holds the words it held before and the words of the
/// lines; a word of a line has the entry of the last line that names it, and
/// a word that no line names keeps its entry.
pub proof fn lemma_loaded(
    entries: Map<Seq<char>, Map<Field, Seq<Seq<char>>>>,
    lines: Seq<Seq<char>>,
    unknown: UnknownKeys,
)
    ensures
        loaded(entries, lines, unknown) is Ok <==> forall|i: int|
            0 <= i < lines.len() ==> (#[trigger] word_of(lines[i], unknown)) is Some,
        loaded(entries, lines, unknown) matches Ok(made) ==> {
            &&& forall|word: Seq<char>|
                made.contains_key(word) <==> entries.contains_key(word) || exists|i: int|
                    0 <= i < lines.len() && #[trigger] word_of(lines[i], unknown) == Some(word)
            &&& forall|i: int|
                #![trigger word_of(lines[i], unknown)]
                0 <= i < lines.len() && (forall|j: int|
                    i < j < lines.len() ==> #[trigger] word_of(lines[j], unknown) != word_of(
                        lines[i],
                        unknown,
                    )) ==> made[word_of(lines[i], unknown).unwrap()] == entry_of(lines[i], unknown)
            &&& forall|word: Seq<char>|
                (forall|j: int|
                    0 <= j < lines.len() ==> #[trigger] word_of(lines[j], unknown) != Some(word))
                    ==> made[word] == entries[word]
        },
    decreases lines.len(),
{
    if lines.len() > 0 {
        let tail = lines.drop_first();
        assert forall|i: int| 0 <= i < tail.len() implies #[trigger] tail[i] == lines[i + 1] by {}
        match parsed(lines[0], unknown) {
            Err(_) => {
                assert(word_of(lines[0], unknown) is None);
            },
            Ok((first, entry)) => {
                let next = entries.insert(first, entry);
                lemma_loaded(next, tail, unknown);
                assert(word_of(lines[0], unknown) == Some(first));
                if (forall|i: int|
                    0 <= i < tail.len() ==> (#[trigger] word_of(tail[i], unknown)) is Some) {
                    assert forall|i: int| 0 <= i < lines.len() implies (#[trigger] word_of(
                        lines[i],
                        unknown,
                    )) is Some by {
                        if i > 0 {
                            assert(lines[i] == tail[i - 1]);
                        }
                    }
                }
                if (forall|i: int|
                    0 <= i < lines.len() ==> (#[trigger] word_of(lines[i], unknown)) is Some) {
                    assert forall|i: int| 0 <= i < tail.len() implies (#[trigger] word_of(
                        tail[i],
                        unknown,
                    )) is Some by {
                        assert(tail[i] == lines[i + 1]);
                    }
                }
                match loaded(next, tail, unknown) {
                    Err(_) => {},
                    Ok(made) => {
                        assert forall|word: Seq<char>|
                            made.contains_key(word) <==> entries.contains_key(word) || exists|
                                i: int,
                            |
                                0 <= i < lines.len() && #[trigger] word_of(lines[i], unknown)
                                    == Some(word) by {
                            if made.contains_key(word) && !entries.contains_key(word) {
                                if next.contains_key(word) {
                                    assert(word_of(lines[0], unknown) == Some(word));
                                } else {
                                    let i = choose|i: int|
                                        0 <= i < tail.len() && #[trigger] word_of(
                                            tail[i],
                                            unknown,
                                        ) == Some(word);
                                    assert(tail[i] == lines[i + 1]);
                                    assert(word_of(lines[i + 1], unknown) == Some(word));
                                }
                            }
                            if exists|i: int|
                                0 <= i < lines.len() && #[trigger] word_of(lines[i], unknown)
                                    == Some(word) {
                                let i = choose|i: int|
                                    0 <= i < lines.len() && #[trigger] word_of(lines[i], unknown)
                                        == Some(word);
                                if i > 0 {
                                    assert(lines[i] == tail[i - 1]);
                                    assert(word_of(tail[i - 1], unknown) == Some(word));
                                }
                            }
                        }
                        assert forall|i: int|
                            #![trigger word_of(lines[i], unknown)]
                            0 <= i < lines.len() && (forall|j: int|
                                i < j < lines.len() ==> #[trigger] word_of(lines[j], unknown)
                                    != word_of(lines[i], unknown)) implies made[word_of(
                            lines[i],
                            unknown,
                        ).unwrap()] == entry_of(lines[i], unknown) by {
                            if i == 0 {
                                assert forall|j: int| 0 <= j < tail.len() implies #[trigger] word_of(
                                    tail[j],
                                    unknown,
                                ) != Some(first) by {
                                    assert(tail[j] == lines[j + 1]);
                                    assert(word_of(lines[j + 1], unknown) != word_of(
                                        lines[0],
                                        unknown,
                                    ));
                                }
                            } else {
                                assert(lines[i] == tail[i - 1]);
                                assert forall|j: int| i - 1 < j < tail.len() implies #[trigger] word_of(
                                    tail[j],
                                    unknown,
                                ) != word_of(tail[i - 1], unknown) by {
                                    assert(tail[j] == lines[j + 1]);
                                    assert(word_of(lines[j + 1], unknown) != word_of(
                                        lines[i],
                                        unknown,
                                    ));
                                }
                                assert(word_of(tail[i - 1], unknown) == word_of(lines[i], unknown));
                            }
                        }
                        assert forall|word: Seq<char>|
                            (forall|j: int|
                                0 <= j < lines.len() ==> #[trigger] word_of(lines[j], unknown)
                                    != Some(word)) implies made[word] == entries[word] by {
                            assert(word_of(lines[0], unknown) != Some(word));
                            assert forall|j: int| 0 <= j < tail.len() implies #[trigger] word_of(
                                tail[j],
                                unknown,
                            ) != Some(word) by {
                                assert(tail[j] == lines[j + 1]);
                                assert(word_of(lines[j + 1], unknown) != Some(word));
                            }
                        }
                    },
                }
            },
        }
    }
}

/// The views of the lines `lines`, in order.
pub open spec fn line_views(lines: Seq<String>) -> Seq<Seq<char>> {
    Seq::new(lines.len(), |i: int| lines[i]@)
}

/// One paragraph for each of `values`: the key, a colon and the value.
pub open spec fn value_blocks(key: Seq<char>, values: Seq<Seq<char>>) -> Seq<Block> {
    Seq::new(values.len(), |i: int| Block::Paragraph(key + ": "@ + values[i]))
}

/// The paragraphs for the first `upto` fields of [`all_fields`].
pub open spec fn field_blocks(entry: Map<Field, Seq<Seq<char>>>, upto: int) -> Seq<Block>
    decreases upto,
{
    if upto <= 0 {
        Seq::empty()
    } else {
        let field = all_fields()[upto - 1];
        field_blocks(entry, upto - 1) + value_blocks(field.key(), entry[field])
    }
}

/// The document of an entry: the word as a header, and then one paragraph
/// for each value, field by field in the order of [`all_fields`].
pub open spec fn entry_blocks(word: Seq<char>, entry: Map<Field, Seq<Seq<char>>>) -> Seq<Block> {
    seq![Block::Header1(word)] + field_blocks(entry, all_fields().len() as int)
}

/// A dictionary of Wiktionary entries.
#[derive(Debug)]
pub struct WiktinaryAdapter {
    index: FxHashMap<String, usize>,
    entries: Vec<Entry>,
}

impl View for WiktinaryAdapter {
    type V = Map<Seq<char>, Map<Field, Seq<Seq<char>>>>;

    /// The entry of each word that the dictionary holds.
    closed spec fn view(&self) -> Map<Seq<char>, Map<Field, Seq<Seq<char>>>> {
        Map::new(
            |word: Seq<char>| slots(self.index).contains_key(word),
            |word: Seq<char>| self.entries@[slots(self.index)[word] as int]@,
        )
    }
}

impl WiktinaryAdapter {
    /// Each word of the index has an entry of its own.
    #[verifier::type_invariant]
    closed spec fn agrees(self) -> bool {
        &&& forall|word: Seq<char>| #[trigger]
            slots(self.index).contains_key(word) ==> slots(self.index)[word] < self.entries@.len()
        &&& forall|a: Seq<char>, b: Seq<char>|
            #![trigger slots(self.index)[a], slots(self.index)[b]]
            slots(self.index).contains_key(a) && slots(self.index).contains_key(b) && a != b
                ==> slots(self.index)[a] != slots(self.index)[b]
    }

    /// A dictionary without entries.
    pub fn new() -> (made: WiktinaryAdapter)
        ensures
            made@ == Map::<Seq<char>, Map<Field, Seq<Seq<char>>>>::empty(),
    {
        let made = WiktinaryAdapter { index: index_new(), entries: Vec::new() };
        assert(made@ =~= Map::<Seq<char>, Map<Field, Seq<Seq<char>>>>::empty());
        made
    }

    /// Puts `entry` under `word`, in place of the entry that the word had.
    pub fn insert(&mut self, word: Word, entry: Entry)
        ensures
            final(self)@ == old(self)@.insert(word@, entry@),
    {
        let mut taken = WiktinaryAdapter::new();
        std::mem::swap(self, &mut taken);
        proof {
            use_type_invariant(&taken);
        }
        let WiktinaryAdapter { mut index, mut entries } = taken;
        let ghost before = entries@;
        let ghost was = slots(index);
        match index_get(&index, word.as_str()) {
            Some(slot) => {
                entries.set(slot, entry);
            },
            None => {
                let slot = entries.len();
                entries.push(entry);
                index_insert(&mut index, word.inner(), slot);
            },
        }
        let made = WiktinaryAdapter { index, entries };
        assert(made@ =~= old(self)@.insert(word@, entry@));
        *self = made;
    }

    /// Reads the record `line` and puts its entry under its word. A line
    /// that is refused leaves the dictionary as it is.
    pub fn insert_line(&mut self, line: &str, unknown: UnknownKeys) -> (result: Result<
        (),
        WiktionaryError,
    >)
        ensures
            match result {
                Ok(_) => parsed(line@, unknown) matches Ok((word, entry)) && final(self)@ == old(
                    self,
                )@.insert(word, entry),
                Err(error) => parsed(line@, unknown) == Err::<
                    (Seq<char>, Map<Field, Seq<Seq<char>>>),
                    Fault,
                >(error@) && final(self)@ == old(self)@,
            },
    {
        match Entry::parse_with(line, unknown) {
            Ok((word, entry)) => {
                self.insert(word, entry);
                Ok(())
            },
            Err(error) => Err(error),
        }
    }

    /// The dictionary that the lines of a data file make.
    pub fn load(lines: &Vec<String>, unknown: UnknownKeys) -> (result: Result<
        WiktinaryAdapter,
        WiktionaryError,
    >)
        ensures
            match result {
                Ok(made) => loaded(Map::empty(), line_views(lines@), unknown) == Ok::<
                    Map<Seq<char>, Map<Field, Seq<Seq<char>>>>,
                    Fault,
                >(made@),
                Err(error) => loaded(Map::empty(), line_views(lines@), unknown) == Err::<
                    Map<Seq<char>, Map<Field, Seq<Seq<char>>>>,
                    Fault,
                >(error@),
            },
    {
        let mut made = WiktinaryAdapter::new();
        let ghost all = line_views(lines@);
        let mut at: usize = 0;
        assert(all.subrange(0, all.len() as int) =~= all);
        while at < lines.len()
            invariant
                at <= lines@.len(),
                all == line_views(lines@),
                loaded(Map::empty(), all, unknown) == loaded(
                    made@,
                    all.subrange(at as int, all.len() as int),
                    unknown,
                ),
            decreases lines@.len() - at,
        {
            let ghost rest = all.subrange(at as int, all.len() as int);
            assert(rest[0] == lines@[at as int]@);
            assert(rest.drop_first() =~= all.subrange(at as int + 1, all.len() as int));
            match made.insert_line(lines[at].as_str(), unknown) {
                Ok(_) => {},
                Err(error) => {
                    return Err(error);
                },
            }
            at += 1;
        }
        Ok(made)
    }

    /// The entry of `word`, if the dictionary holds the word.
    pub fn get(&self, word: &Word) -> (entry: Option<&Entry>)
        ensures
            match entry {
                Some(found) => self@.contains_key(word@) && found@ == self@[word@],
                None => !self@.contains_key(word@),
            },
    {
        proof {
            use_type_invariant(self);
        }
        match index_get(&self.index, word.as_str()) {
            Some(slot) => Some(&self.entries[slot]),
            None => None,
        }
    }
}

/// Adds to `doc` one paragraph for each of `values`: `key`, a colon and the
/// value.
fn push_values(doc: &mut Markdown, key: &str, values: &Vec<String>)
    ensures
        blocks(*final(doc)) == blocks(*old(doc)) + value_blocks(
            key@,
            crate::wiktionary::entry::texts(values@),
        ),
{
    let ghost all = value_blocks(key@, crate::wiktionary::entry::texts(values@));
    let mut at: usize = 0;
    assert(blocks(*doc) =~= blocks(*old(doc)) + all.subrange(0, 0));
    while at < values.len()
        invariant
            at <= values@.len(),
            all == value_blocks(key@, crate::wiktionary::entry::texts(values@)),
            blocks(*doc) == blocks(*old(doc)) + all.subrange(0, at as int),
        decreases values@.len() - at,
    {
        let text = String::from_str(key).concat(": ").concat(values[at].as_str());
        paragraph(doc, text.as_str());
        at += 1;
        assert(blocks(*doc) =~= blocks(*old(doc)) + all.subrange(0, at as int));
    }
    assert(all.subrange(0, at as int) =~= all);
}

/// The document of `entry` under the word `word`.
pub fn entry_document(word: &Word, entry: &Entry) -> (doc: Markdown)
    ensures
        blocks(doc) == entry_blocks(word@, entry@),
{
    let mut doc = document();
    header1(&mut doc, word.as_str());
    let fields = Field::all();
    let mut at: usize = 0;
    assert(blocks(doc) =~= seq![Block::Header1(word@)] + field_blocks(entry@, 0));
    while at < fields.len()
        invariant
            at <= fields@.len(),
            fields@ == all_fields(),
            blocks(doc) == seq![Block::Header1(word@)] + field_blocks(entry@, at as int),
        decreases fields@.len() - at,
    {
        let field = fields[at];
        let ghost before = blocks(doc);
        match entry.list(field) {
            Some(values) => {
                push_values(&mut doc, field.name(), values);
            },
            None => match entry.detail(field) {
                Some(value) => {
                    let text = String::from_str(field.name()).concat(": ").concat(value.as_str());
                    paragraph(&mut doc, text.as_str());
                    assert(blocks(doc) =~= before + value_blocks(field.key(), entry@[field]));
                },
                None => {
                    assert(blocks(doc) =~= before + value_blocks(field.key(), entry@[field]));
                },
            },
        }
        at += 1;
        assert(blocks(doc) =~= seq![Block::Header1(word@)] + field_blocks(entry@, at as int));
    }
    doc
}

impl Dictionary for WiktinaryAdapter {
    type Error = WiktionaryError;

    /// The lines of the data file.
    type InitInput = Vec<String>;

    /// The dictionary holds the words that have an entry.
    open spec fn knows(&self, word: Seq<char>) -> bool {
        self@.contains_key(word)
    }

    /// The dictionary that the lines of a data file make. A key that no
    /// field answers to refuses the file.
    fn init(input: &Vec<String>) -> (result: Result<WiktinaryAdapter, WiktionaryError>)
        ensures
            match result {
                Ok(made) => loaded(Map::empty(), line_views(input@), UnknownKeys::Reject) == Ok::<
                    Map<Seq<char>, Map<Field, Seq<Seq<char>>>>,
                    Fault,
                >(made@),
                Err(error) => loaded(Map::empty(), line_views(input@), UnknownKeys::Reject)
                    == Err::<Map<Seq<char>, Map<Field, Seq<Seq<char>>>>, Fault>(error@),
            },
    {
        WiktinaryAdapter::load(input, UnknownKeys::Reject)
    }

    fn exits(&self, word: &Word) -> (found: Result<bool, WiktionaryError>)
        ensures
            found matches Ok(known) && known == self@.contains_key(word@),
    {
        Ok(self.get(word).is_some())
    }

    fn lookup_ditail(&self, word: &Word) -> (detail: Result<Option<Markdown>, WiktionaryError>)
        ensures
            detail matches Ok(found) && match found {
                Some(doc) => self@.contains_key(word@) && blocks(doc) == entry_blocks(
                    word@,
                    self@[word@],
                ),
                None => !self@.contains_key(word@),
            },
    {
        match self.get(word) {
            Some(entry) => Ok(Some(entry_document(word, entry))),
            None => Ok(None),
        }
    }
}

} // verus!

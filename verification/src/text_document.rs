//! Text documents: which word stands at a position of a line, which line of
//! a file is asked for, and which files are open.

use crate::text::{
    char_is_ascii_alphabetic, char_to_ascii_lowercase, chars_of, is_ascii_alphabetic,
    is_whitespace, lemma_trimmed_fixed, lowercased, push_char,
};
use crate::index::{index_get, index_insert, index_new, slots};
use crate::outside::io_text;
use crate::text::{str_eq, to_lowercase};
use crate::word::{word_view, Word};
use rustc_hash::FxHashMap;
use vstd::prelude::*;
use vstd::string::StringExecFns;

verus! {

/// A position in a text document: a line and a column in it, both counted
/// from zero. The column counts characters.
#[derive(Clone, Copy, Debug, PartialEq, Eq, Structural)]
pub struct Position {
    pub line: u32,
    pub character: u32,
}

/// Where the run of letters that ends just before `at` begins. Where no
/// letter stands before `at`, that is `at` itself.
pub open spec fn run_start(line: Seq<char>, at: int) -> int
    decreases at,
{
    if 0 < at <= line.len() && is_ascii_alphabetic(line[at - 1]) {
        run_start(line, at - 1)
    } else {
        at
    }
}

/// Where the run of letters that begins at `at` ends. Where no letter
/// stands at `at`, that is `at` itself.
pub open spec fn run_end(line: Seq<char>, at: int) -> int
    decreases line.len() - at,
{
    if 0 <= at < line.len() && is_ascii_alphabetic(line[at]) {
        run_end(line, at + 1)
    } else {
        at
    }
}

/// The word at `column` of `line`: the longest run of ASCII letters around
/// that column, in lower case. A column that holds no letter has no word. A
/// column behind the end of the line has the word that the line ends with,
/// if it ends with one.
pub open spec fn word_at(line: Seq<char>, column: int) -> Option<Seq<char>> {
    if 0 <= column < line.len() {
        if is_ascii_alphabetic(line[column]) {
            Some(lowercased(line.subrange(run_start(line, column), run_end(line, column))))
        } else {
            None
        }
    } else if line.len() > 0 && is_ascii_alphabetic(line.last()) {
        Some(lowercased(line.subrange(run_start(line, line.len() as int), line.len() as int)))
    } else {
        None
    }
}

/// Whether `from..to` is a run of letters of `line` that cannot be made
/// longer at either end.
pub open spec fn is_maximal_run(line: Seq<char>, from: int, to: int) -> bool {
    &&& 0 <= from <= to <= line.len()
    &&& forall|j: int| from <= j < to ==> is_ascii_alphabetic(#[trigger] line[j])
    &&& (from == 0 || !is_ascii_alphabetic(line[from - 1]))
    &&& (to == line.len() || !is_ascii_alphabetic(line[to]))
}

/// The run that ends just before `at` consists of letters and cannot be
/// made longer at its start.
pub proof fn lemma_run_start(line: Seq<char>, at: int)
    requires
        0 <= at <= line.len(),
    ensures
        0 <= run_start(line, at) <= at,
        forall|j: int| run_start(line, at) <= j < at ==> is_ascii_alphabetic(#[trigger] line[j]),
        run_start(line, at) == 0 || !is_ascii_alphabetic(line[run_start(line, at) - 1]),
    decreases at,
{
    if 0 < at && is_ascii_alphabetic(line[at - 1]) {
        lemma_run_start(line, at - 1);
    }
}

/// The run that begins at `at` consists of letters and cannot be made
/// longer at its end.
pub proof fn lemma_run_end(line: Seq<char>, at: int)
    requires
        0 <= at <= line.len(),
    ensures
        at <= run_end(line, at) <= line.len(),
        forall|j: int| at <= j < run_end(line, at) ==> is_ascii_alphabetic(#[trigger] line[j]),
        run_end(line, at) == line.len() || !is_ascii_alphabetic(line[run_end(line, at)]),
    decreases line.len() - at,
{
    if at < line.len() && is_ascii_alphabetic(line[at]) {
        lemma_run_end(line, at + 1);
    }
}

/// Inside a run that cannot be made longer, `run_start` and `run_end` give
/// the ends of that run.
pub proof fn lemma_run_bounds(line: Seq<char>, from: int, to: int, at: int)
    requires
        is_maximal_run(line, from, to),
        from <= at <= to,
    ensures
        run_start(line, at) == from,
        run_end(line, at) == to,
{
    lemma_run_start_from(line, from, at);
    lemma_run_end_to(line, to, at);
}

proof fn lemma_run_start_from(line: Seq<char>, from: int, at: int)
    requires
        0 <= from <= at <= line.len(),
        forall|j: int| from <= j < at ==> is_ascii_alphabetic(#[trigger] line[j]),
        from == 0 || !is_ascii_alphabetic(line[from - 1]),
    ensures
        run_start(line, at) == from,
    decreases at - from,
{
    if at > from {
        assert(is_ascii_alphabetic(line[at - 1]));
        lemma_run_start_from(line, from, at - 1);
    }
}

proof fn lemma_run_end_to(line: Seq<char>, to: int, at: int)
    requires
        0 <= at <= to <= line.len(),
        forall|j: int| at <= j < to ==> is_ascii_alphabetic(#[trigger] line[j]),
        to == line.len() || !is_ascii_alphabetic(line[to]),
    ensures
        run_end(line, at) == to,
    decreases to - at,
{
    if at < to {
        assert(is_ascii_alphabetic(line[at]));
        lemma_run_end_to(line, to, at + 1);
    }
}

/// At a column of the line there is a word exactly when the column holds a
/// letter, and the word is then the longest run of letters that holds the
/// column, in lower case.
pub proof fn lemma_word_at(line: Seq<char>, column: int)
    requires
        0 <= column < line.len(),
    ensures
        word_at(line, column) is Some <==> is_ascii_alphabetic(line[column]),
        is_ascii_alphabetic(line[column]) ==> {
            let from = run_start(line, column);
            let to = run_end(line, column);
            &&& from <= column < to
            &&& is_maximal_run(line, from, to)
            &&& word_at(line, column) == Some(lowercased(line.subrange(from, to)))
        },
{
    lemma_run_start(line, column);
    lemma_run_end(line, column);
}

/// A word that was found holds lower case letters only, and at least one.
pub proof fn lemma_word_at_letters(line: Seq<char>, column: int)
    requires
        0 <= column,
    ensures
        word_at(line, column) matches Some(word) ==> {
            &&& word.len() > 0
            &&& forall|j: int| 0 <= j < word.len() ==> 'a' <= #[trigger] word[j] <= 'z'
        },
{
    if column < line.len() {
        lemma_run_start(line, column);
        lemma_run_end(line, column);
    } else {
        lemma_run_start(line, line.len() as int);
    }
}

/// The word at the cursor: the longest run of ASCII letters around the
/// column `position.character` of the line `s`, in lower case.
///
/// The line is read from left to right. Letters build up a run; any other
/// character ends it. The run that holds the column is the answer, and a
/// column that holds no letter has none.
pub fn extract_word_from_line(s: String, position: &Position) -> (word: Option<Word>)
    ensures
        word_view(word) == word_at(s@, position.character as int),
{
    let chars = chars_of(s.as_str());
    let n = chars.len();
    let column = position.character as usize;
    let mut run = String::new();
    let mut index: usize = 0;
    while index < n
        invariant
            index <= n,
            n == chars@.len(),
            chars@ == s@,
            column == position.character,
            run@ == lowercased(s@.subrange(run_start(s@, index as int), index as int)),
            column < index ==> run_start(s@, index as int) <= column,
        decreases n - index,
    {
        let c = chars[index];
        let ghost from = run_start(s@, index as int);
        proof {
            lemma_run_start(s@, index as int);
        }
        if char_is_ascii_alphabetic(c) {
            push_char(&mut run, char_to_ascii_lowercase(c));
            assert(run@ =~= lowercased(s@.subrange(from, index as int + 1)));
        } else {
            if column < index {
                proof {
                    lemma_run_bounds(s@, from, index as int, column as int);
                    lemma_letters_clean(s@.subrange(from, index as int));
                }
                return Some(Word::new(run.as_str()));
            }
            if column == index {
                return None;
            }
            run = String::new();
            assert(run@ =~= lowercased(s@.subrange(index as int + 1, index as int + 1)));
        }
        index += 1;
    }
    proof {
        lemma_run_start(s@, n as int);
        let from = run_start(s@, n as int);
        lemma_run_bounds(s@, from, n as int, if column < n {
            column as int
        } else {
            n as int
        });
        lemma_letters_clean(s@.subrange(from, n as int));
    }
    if run.as_str().is_empty() {
        None
    } else {
        Some(Word::new(run.as_str()))
    }
}

/// Letters in lower case are their own normal form.
proof fn lemma_letters_clean(run: Seq<char>)
    requires
        forall|j: int| 0 <= j < run.len() ==> is_ascii_alphabetic(#[trigger] run[j]),
    ensures
        crate::text::trimmed(lowercased(run)) == lowercased(run),
{
    let low = lowercased(run);
    if low.len() > 0 {
        assert(is_ascii_alphabetic(run[0]));
        assert(is_ascii_alphabetic(run[run.len() - 1]));
        assert(!is_whitespace(low[0]));
        assert(!is_whitespace(low.last()));
    }
    lemma_trimmed_fixed(low);
}

/// Why a document could not be read.
#[derive(Debug)]
pub enum FsError {
    /// The address of the document does not name a local file.
    WrongScheme,
    /// The file could not be opened or read.
    IoError(std::io::Error),
    /// The file has no line of the number asked for.
    WrongPosition,
}

impl FsError {
    /// Whether `text` describes this failure. What describes a failure of
    /// the file system is left to the operating system.
    pub open spec fn says(&self, text: Seq<char>) -> bool {
        match self {
            FsError::WrongScheme => text == "Given Uri has wrong scheme"@,
            FsError::IoError(_) => true,
            FsError::WrongPosition => text == "Wrong position"@,
        }
    }

    /// The text that describes the failure.
    pub fn message(&self) -> (text: String)
        ensures
            self.says(text@),
    {
        match self {
            FsError::WrongScheme => String::from_str("Given Uri has wrong scheme"),
            FsError::IoError(error) => io_text(error),
            FsError::WrongPosition => String::from_str("Wrong position"),
        }
    }
}

/// The scheme of `uri`, as it is written.
pub uninterp spec fn uri_scheme(uri: lsp_types::Uri) -> Option<Seq<char>>;

/// The path of `uri`, as it is written.
pub uninterp spec fn uri_path(uri: lsp_types::Uri) -> Seq<char>;

/// The text that `text` holds, if it holds one.
pub open spec fn text_view(text: Option<String>) -> Option<Seq<char>> {
    match text {
        Some(t) => Some(t@),
        None => None,
    }
}

/// The text of the name that `name` holds, if it holds one.
pub open spec fn name_view(name: Option<&str>) -> Option<Seq<char>> {
    match name {
        Some(n) => Some(n@),
        None => None,
    }
}

/// `fluent_uri::Uri::scheme`, through `lsp_types::Uri`: the scheme component
/// of the address, where it has one, copied out as it is written.
#[verifier::external_body]
fn scheme_of(uri: &lsp_types::Uri) -> (scheme: Option<String>)
    ensures
        text_view(scheme) == uri_scheme(*uri),
{
    match uri.scheme() {
        Some(scheme) => Some(scheme.as_str().to_string()),
        None => None,
    }
}

/// `fluent_uri::Uri::path`, through `lsp_types::Uri`: the path component of
/// the address, copied out as it is written.
#[verifier::external_body]
fn path_of(uri: &lsp_types::Uri) -> (path: String)
    ensures
        path@ == uri_path(*uri),
{
    uri.path().as_str().to_string()
}

/// Whether `scheme` is the scheme of local files: `file`, in any mix of
/// upper and lower case.
pub open spec fn is_file_scheme(scheme: Option<Seq<char>>) -> bool {
    scheme matches Some(name) && lowercased(name) == "file"@
}

/// The path of a local file, given the scheme and the path of its address.
/// Any scheme but `file` is refused.
pub fn path_of_file(scheme: Option<&str>, path: String) -> (result: Result<String, FsError>)
    ensures
        match result {
            Ok(file) => is_file_scheme(name_view(scheme)) && file == path,
            Err(error) => !is_file_scheme(name_view(scheme)) && error is WrongScheme,
        },
{
    match scheme {
        Some(name) => {
            let low = to_lowercase(name);
            if str_eq(low.as_str(), "file") {
                Ok(path)
            } else {
                Err(FsError::WrongScheme)
            }
        },
        None => Err(FsError::WrongScheme),
    }
}

/// The path of the local file that `value` names. An address with another
/// scheme than `file`, or with none, is refused.
pub fn try_from_uri(value: &lsp_types::Uri) -> (result: Result<String, FsError>)
    ensures
        match result {
            Ok(path) => is_file_scheme(uri_scheme(*value)) && path@ == uri_path(*value),
            Err(error) => !is_file_scheme(uri_scheme(*value)) && error is WrongScheme,
        },
{
    let scheme = scheme_of(value);
    let path = path_of(value);
    match scheme {
        Some(name) => path_of_file(Some(name.as_str()), path),
        None => path_of_file(None, path),
    }
}

/// How many lines of a file, from its first line on, must be read to answer
/// for `position`: the lines before the line of the position, and that line.
pub fn lines_needed(position: &Position) -> (needed: u64)
    ensures
        needed == position.line + 1,
{
    let line: u64 = position.line as u64;
    line + 1
}

/// The line of the number `position.line` among `lines`, the lines of a file
/// from its first line on. Where the file has fewer lines, the position is
/// wrong.
pub fn read_line(lines: &Vec<String>, position: &Position) -> (result: Result<String, FsError>)
    ensures
        match result {
            Ok(line) => position.line < lines@.len() && line@ == lines@[position.line as int]@,
            Err(error) => position.line >= lines@.len() && error is WrongPosition,
        },
{
    let wanted = position.line as usize;
    if wanted < lines.len() {
        Ok(lines[wanted].clone())
    } else {
        Err(FsError::WrongPosition)
    }
}

/// The word at `position`, given the lines of the file from its first line
/// on.
pub fn read_word(lines: &Vec<String>, position: &Position) -> (result: Result<
    Option<Word>,
    FsError,
>)
    ensures
        match result {
            Ok(word) => position.line < lines@.len() && word_view(word) == word_at(
                lines@[position.line as int]@,
                position.character as int,
            ),
            Err(error) => position.line >= lines@.len() && error is WrongPosition,
        },
{
    match read_line(lines, position) {
        Ok(line) => Ok(extract_word_from_line(line, position)),
        Err(error) => Err(error),
    }
}

/// The views of the paths `paths`, in order.
pub open spec fn path_views(paths: Seq<String>) -> Seq<Seq<char>> {
    Seq::new(paths.len(), |i: int| paths[i]@)
}

/// The documents that are open: each path that was opened, with the slot
/// under which the caller keeps its file. A path is opened once and stays
/// open; slots are given out in the order of opening, from zero.
#[derive(Debug)]
pub struct FileSystem {
    index: FxHashMap<String, usize>,
    paths: Vec<String>,
}

impl FileSystem {
    /// The paths that are open, each at the place of its slot.
    pub closed spec fn opened(&self) -> Seq<Seq<char>> {
        path_views(self.paths@)
    }

    /// The index holds each open path with its place, and nothing else.
    #[verifier::type_invariant]
    closed spec fn agrees(self) -> bool {
        &&& forall|path: Seq<char>| #[trigger]
            slots(self.index).contains_key(path) ==> {
                &&& slots(self.index)[path] < self.paths@.len()
                &&& self.paths@[slots(self.index)[path] as int]@ == path
            }
        &&& forall|i: int|
            0 <= i < self.paths@.len() ==> {
                &&& slots(self.index).contains_key(#[trigger] self.paths@[i]@)
                &&& slots(self.index)[self.paths@[i]@] == i
            }
    }

    /// A cache without open documents.
    pub fn new() -> (fs: FileSystem)
        ensures
            fs.opened() == Seq::<Seq<char>>::empty(),
    {
        let fs = FileSystem { index: index_new(), paths: Vec::new() };
        assert(fs.opened() =~= Seq::<Seq<char>>::empty());
        fs
    }

    /// The slot of `path`, if it is open. No path is open twice, so the slot
    /// is the only place of the path.
    pub fn slot(&self, path: &str) -> (slot: Option<usize>)
        ensures
            self.opened().no_duplicates(),
            match slot {
                Some(i) => i < self.opened().len() && self.opened()[i as int] == path@,
                None => !self.opened().contains(path@),
            },
    {
        proof {
            use_type_invariant(self);
            assert forall|i: int, j: int|
                0 <= i < self.opened().len() && 0 <= j < self.opened().len() && i
                    != j implies self.opened()[i] != self.opened()[j] by {
                assert(slots(self.index)[self.paths@[i]@] == i);
                assert(slots(self.index)[self.paths@[j]@] == j);
            }
        }
        let slot = index_get(&self.index, path);
        proof {
            if slot is None {
                assert forall|i: int| 0 <= i < self.opened().len() implies self.opened()[i]
                    != path@ by {
                    assert(slots(self.index).contains_key(self.paths@[i]@));
                }
            }
        }
        slot
    }

    /// Takes `path` among the open documents and gives its slot. A path that
    /// is open already keeps its slot, and nothing changes; a new path gets
    /// the next slot.
    pub fn insert(&mut self, path: &str) -> (slot: usize)
        ensures
            old(self).opened().contains(path@) ==> final(self).opened() == old(self).opened(),
            !old(self).opened().contains(path@) ==> final(self).opened() == old(self).opened().push(
                path@,
            ) && slot == old(self).opened().len(),
            slot < final(self).opened().len(),
            final(self).opened()[slot as int] == path@,
            final(self).opened().no_duplicates(),
    {
        match self.slot(path) {
            Some(slot) => slot,
            None => {
                proof {
                    use_type_invariant(&*self);
                }
                let mut taken = FileSystem::new();
                std::mem::swap(self, &mut taken);
                proof {
                    use_type_invariant(&taken);
                    if slots(taken.index).contains_key(path@) {
                        let i = slots(taken.index)[path@] as int;
                        assert(taken.opened()[i] == path@);
                    }
                }
                let FileSystem { mut index, mut paths } = taken;
                let ghost before = paths@;
                let slot = paths.len();
                index_insert(&mut index, path.to_owned(), slot);
                paths.push(path.to_owned());
                proof {
                    assert(path_views(paths@) =~= old(self).opened().push(path@));
                    assert forall|key: Seq<char>| #[trigger]
                        slots(index).contains_key(key) implies slots(index)[key] < paths@.len()
                        && paths@[slots(index)[key] as int]@ == key by {
                        if key != path@ {
                            assert(paths@[slots(index)[key] as int] == before[slots(
                                index,
                            )[key] as int]);
                        }
                    }
                    assert forall|i: int| 0 <= i < paths@.len() implies slots(index).contains_key(
                        #[trigger] paths@[i]@,
                    ) && slots(index)[paths@[i]@] == i by {
                        if i < before.len() {
                            assert(paths@[i] == before[i]);
                            assert(path_views(before)[i] == before[i]@);
                        }
                    }
                }
                *self = FileSystem { index, paths };
                proof {
                    assert forall|i: int, j: int|
                        0 <= i < self.opened().len() && 0 <= j < self.opened().len() && i
                            != j implies self.opened()[i] != self.opened()[j] by {
                        assert(slots(self.index)[self.paths@[i]@] == i);
                        assert(slots(self.index)[self.paths@[j]@] == j);
                    }
                }
                slot
            },
        }
    }
}

} // verus!

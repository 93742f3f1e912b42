//! Documents: what a dictionary says about a word, built block by block and
//! rendered as Markdown.

use markdown_builder::Markdown;
use vstd::prelude::*;

verus! {

/// A block of a document.
pub enum Block {
    /// A header of the first level, with its text.
    Header1(Seq<char>),
    /// A paragraph, with its text.
    Paragraph(Seq<char>),
}

/// The headers of the first level and the paragraphs that `doc` holds, in
/// the order of the document.
pub uninterp spec fn blocks(doc: Markdown) -> Seq<Block>;

/// The text that rendering `doc` gives.
pub uninterp spec fn rendered(doc: Markdown) -> Seq<char>;

/// `Markdown::new`: a document without elements.
#[verifier::external_body]
pub(crate) fn document() -> (doc: Markdown)
    ensures
        blocks(doc) == Seq::<Block>::empty(),
{
    Markdown::new()
}

/// `Markdown::header1`: adds a header of the first level with the text
/// `text` at the end of the document.
#[verifier::external_body]
pub(crate) fn header1(doc: &mut Markdown, text: &str)
    ensures
        blocks(*final(doc)) == blocks(*old(doc)).push(Block::Header1(text@)),
{
    doc.header1(text);
}

/// `Markdown::paragraph`: adds a paragraph with the text `text` at the end
/// of the document.
#[verifier::external_body]
pub(crate) fn paragraph(doc: &mut Markdown, text: &str)
    ensures
        blocks(*final(doc)) == blocks(*old(doc)).push(Block::Paragraph(text@)),
{
    doc.paragraph(text);
}

/// `Markdown::render`: the document as Markdown text.
#[verifier::external_body]
pub(crate) fn render(doc: &Markdown) -> (text: String)
    ensures
        text@ == rendered(*doc),
{
    doc.render()
}

/// How the text of a hover is to be read.
#[derive(Clone, Copy, Debug, PartialEq, Eq, Structural)]
pub enum MarkupKind {
    PlainText,
    Markdown,
}

/// The text of a hover, with the way to read it.
#[derive(Debug)]
pub struct MarkupContent {
    pub kind: MarkupKind,
    pub value: String,
}

/// The content of the hover that shows `value`: its Markdown text.
pub fn from_markdown(value: Markdown) -> (content: MarkupContent)
    ensures
        content.kind == MarkupKind::Markdown,
        content.value@ == rendered(value),
{
    MarkupContent { kind: MarkupKind::Markdown, value: render(&value) }
}

} // verus!

//! Types of other crates that values of this crate carry. The crate never
//! looks inside one of them; it can ask for the text that describes one.

use vstd::prelude::*;

verus! {

/// `std::io::Error`, the failure of a read or an open.
#[verifier::external_type_specification]
#[verifier::external_body]
pub struct ExIoError(std::io::Error);

/// `rustc_hash::FxBuildHasher`, the hasher of the crate's hash maps.
#[verifier::external_type_specification]
#[verifier::external_body]
pub struct ExFxBuildHasher(rustc_hash::FxBuildHasher);

/// `lsp_types::Uri`, the address of a document as the client sent it.
#[verifier::external_type_specification]
#[verifier::external_body]
pub struct ExUri(lsp_types::Uri);

/// `markdown_builder::Markdown`, a document that is rendered as Markdown.
#[verifier::external_type_specification]
#[verifier::external_body]
pub struct ExMarkdown(markdown_builder::Markdown);

/// `lsp_server::ProtocolError`, a failure of the handshake or of the
/// shutdown.
#[verifier::external_type_specification]
#[verifier::external_body]
pub struct ExProtocolError(lsp_server::ProtocolError);

/// `lsp_server::Message`, a message as the transport carries it.
#[verifier::external_type_specification]
#[verifier::external_body]
pub struct ExMessage(lsp_server::Message);

/// `lsp_server::RequestId`, by which a response names its request.
#[verifier::external_type_specification]
#[verifier::external_body]
pub struct ExRequestId(lsp_server::RequestId);

/// `serde_json::Error`, the failure to read a value out of JSON.
#[verifier::external_type_specification]
#[verifier::external_body]
pub struct ExJsonError(serde_json::Error);

/// The text that describes a failure of the protocol.
pub uninterp spec fn protocol_error_text(error: lsp_server::ProtocolError) -> Seq<char>;

/// The text that shows a message in full.
pub uninterp spec fn message_debug_text(message: lsp_server::Message) -> Seq<char>;

/// `Display` of `std::io::Error`. The text comes from the operating system
/// and is not the same on every machine.
#[verifier::external_body]
pub(crate) fn io_text(error: &std::io::Error) -> String {
    error.to_string()
}

/// `Display` of `lsp_server::ProtocolError`: the text of the error.
#[verifier::external_body]
pub(crate) fn protocol_text(error: &lsp_server::ProtocolError) -> (text: String)
    ensures
        text@ == protocol_error_text(*error),
{
    error.to_string()
}

/// `Display` of `serde_json::Error`. Where the error is one of reading or
/// writing, the text is that of the operating system, and is not the same on
/// every machine.
#[verifier::external_body]
pub(crate) fn json_text(error: &serde_json::Error) -> String {
    error.to_string()
}

/// `Debug` of `lsp_server::Message`: the message in full.
#[verifier::external_body]
pub(crate) fn message_text(message: &lsp_server::Message) -> (text: String)
    ensures
        text@ == message_debug_text(*message),
{
    format!("{:?}", message)
}

} // verus!

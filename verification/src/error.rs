//! The failures of the server, and how each is reported to the client.

use crate::example::ExampleError;
use crate::outside::{
    io_text, json_text, message_debug_text, message_text, protocol_error_text, protocol_text,
};
use crate::text::begins_with;
use crate::text_document::FsError;
use vstd::prelude::*;
use vstd::string::StringExecFns;
use vstd::std_specs::convert::FromSpecImpl;

verus! {

/// A failure of the server.
#[derive(Debug)]
pub enum EtymoraError {
    /// The example backend failed.
    ExampleAdapter(ExampleError),
    /// The handshake or the shutdown went wrong.
    Protocol(lsp_server::ProtocolError),
    /// A message or the configuration could not be read.
    Desirialize(serde_json::Error),
    /// The transport's threads could not be joined.
    StdIO(std::io::Error),
    /// A message could not be sent: the channel is closed.
    SendMessage(lsp_server::Message),
    /// A document could not be read.
    Fs(FsError),
}

/// The class under which a failure is reported to the client.
#[derive(Clone, Copy, Debug, PartialEq, Eq, Structural)]
pub enum ErrorCode {
    InvalidRequest,
    InvalidParams,
    InternalError,
}

/// The class of each failure: what the client sent is answered as invalid
/// parameters, a broken exchange as an invalid request, and everything else
/// as an internal error.
pub open spec fn class_of(error: EtymoraError) -> ErrorCode {
    match error {
        EtymoraError::ExampleAdapter(_) => ErrorCode::InternalError,
        EtymoraError::StdIO(_) => ErrorCode::InternalError,
        EtymoraError::SendMessage(_) => ErrorCode::InternalError,
        EtymoraError::Protocol(_) => ErrorCode::InvalidRequest,
        EtymoraError::Desirialize(_) => ErrorCode::InvalidParams,
        EtymoraError::Fs(_) => ErrorCode::InvalidParams,
    }
}

impl ErrorCode {
    /// The number that the protocol gives this class.
    pub open spec fn number(self) -> int {
        match self {
            ErrorCode::InvalidRequest => -32600,
            ErrorCode::InvalidParams => -32602,
            ErrorCode::InternalError => -32603,
        }
    }

    /// The number that the protocol gives this class.
    pub fn code(self) -> (number: i32)
        ensures
            number == self.number(),
    {
        number_of(self)
    }
}

/// The discriminants of `lsp_server::ErrorCode`: the numbers of the three
/// classes, as JSON-RPC defines them.
#[verifier::external_body]
fn number_of(code: ErrorCode) -> (number: i32)
    ensures
        number == code.number(),
{
    match code {
        ErrorCode::InvalidRequest => lsp_server::ErrorCode::InvalidRequest as i32,
        ErrorCode::InvalidParams => lsp_server::ErrorCode::InvalidParams as i32,
        ErrorCode::InternalError => lsp_server::ErrorCode::InternalError as i32,
    }
}

impl<'a> From<&'a EtymoraError> for ErrorCode {
    fn from(value: &'a EtymoraError) -> (code: ErrorCode)
        ensures
            code == class_of(*value),
    {
        match value {
            EtymoraError::ExampleAdapter(_) => ErrorCode::InternalError,
            EtymoraError::StdIO(_) => ErrorCode::InternalError,
            EtymoraError::SendMessage(_) => ErrorCode::InternalError,
            EtymoraError::Protocol(_) => ErrorCode::InvalidRequest,
            EtymoraError::Desirialize(_) => ErrorCode::InvalidParams,
            EtymoraError::Fs(_) => ErrorCode::InvalidParams,
        }
    }
}

impl<'a> FromSpecImpl<&'a EtymoraError> for ErrorCode {
    open spec fn obeys_from_spec() -> bool {
        true
    }

    open spec fn from_spec(value: &'a EtymoraError) -> ErrorCode {
        class_of(*value)
    }
}

impl EtymoraError {
    /// Whether `text` describes this failure. Of a failure to read JSON and
    /// of a failure of the transport's threads only the beginning is fixed:
    /// how the text goes on may be left to the operating system.
    pub open spec fn says(&self, text: Seq<char>) -> bool {
        match self {
            EtymoraError::ExampleAdapter(_) => text == "Example error has occrued"@,
            EtymoraError::Protocol(error) => text == protocol_error_text(*error),
            EtymoraError::Desirialize(_) => begins_with(
                text,
                "Error occurs in desirializing, this is a type of ProtocolError: "@,
            ),
            EtymoraError::StdIO(_) => begins_with(text, "Error occurs in stdio: "@),
            EtymoraError::SendMessage(message) => text
                == "Sending a message failed. The message: "@ + message_debug_text(*message),
            EtymoraError::Fs(error) => error.says(text),
        }
    }

    /// The text that describes the failure.
    pub fn message(&self) -> (text: String)
        ensures
            self.says(text@),
    {
        match self {
            EtymoraError::ExampleAdapter(error) => error.message(),
            EtymoraError::Protocol(error) => protocol_text(error),
            EtymoraError::Desirialize(error) => {
                let tail = json_text(error);
                let text = String::from_str(
                    "Error occurs in desirializing, this is a type of ProtocolError: ",
                ).concat(tail.as_str());
                assert(text@.subrange(
                    0,
                    "Error occurs in desirializing, this is a type of ProtocolError: "@.len() as int,
                ) =~= "Error occurs in desirializing, this is a type of ProtocolError: "@);
                text
            },
            EtymoraError::StdIO(error) => {
                let tail = io_text(error);
                let text = String::from_str("Error occurs in stdio: ").concat(tail.as_str());
                assert(text@.subrange(0, "Error occurs in stdio: "@.len() as int)
                    =~= "Error occurs in stdio: "@);
                text
            },
            EtymoraError::SendMessage(message) => {
                let tail = message_text(message);
                String::from_str("Sending a message failed. The message: ").concat(tail.as_str())
            },
            EtymoraError::Fs(error) => error.message(),
        }
    }
}

/// A failure as the client is told of it: the number of its class and the
/// text that describes it.
#[derive(Debug)]
pub struct ResponseError {
    pub code: i32,
    pub message: String,
}

impl From<EtymoraError> for ResponseError {
    fn from(value: EtymoraError) -> (error: ResponseError)
        ensures
            error.code == class_of(value).number(),
            value.says(error.message@),
    {
        let class = ErrorCode::from(&value);
        ResponseError { code: class.code(), message: value.message() }
    }
}

/// What `from` gives is stated by its fields, on `from` itself: two strings
/// with the same text are not known to be one value.
impl FromSpecImpl<EtymoraError> for ResponseError {
    open spec fn obeys_from_spec() -> bool {
        false
    }

    open spec fn from_spec(value: EtymoraError) -> ResponseError {
        arbitrary()
    }
}

} // verus!

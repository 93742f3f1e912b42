use etymora::error::{ErrorCode, EtymoraError, ResponseError};
use etymora::example::ExampleError;
use etymora::text_document::FsError;
use lsp_server::{Connection, Message, Notification, RequestId, Response};

fn json_error() -> serde_json::Error {
    serde_json::from_str::<bool>("nope").unwrap_err()
}

fn protocol_error() -> lsp_server::ProtocolError {
    let (server, client) = Connection::memory();
    drop(client);
    server.initialize(serde_json::Value::Null).unwrap_err()
}

fn io_error() -> std::io::Error {
    std::io::Error::new(std::io::ErrorKind::Other, "pipe closed")
}

fn message() -> Message {
    Message::Notification(Notification { method: "exit".to_string(), params: serde_json::Value::Null })
}

#[test]
fn every_failure_has_its_class() {
    assert_eq!(
        ErrorCode::from(&EtymoraError::ExampleAdapter(ExampleError::Error)),
        ErrorCode::InternalError
    );
    assert_eq!(ErrorCode::from(&EtymoraError::StdIO(io_error())), ErrorCode::InternalError);
    assert_eq!(ErrorCode::from(&EtymoraError::SendMessage(message())), ErrorCode::InternalError);
    assert_eq!(ErrorCode::from(&EtymoraError::Protocol(protocol_error())), ErrorCode::InvalidRequest);
    assert_eq!(ErrorCode::from(&EtymoraError::Desirialize(json_error())), ErrorCode::InvalidParams);
    assert_eq!(ErrorCode::from(&EtymoraError::Fs(FsError::WrongScheme)), ErrorCode::InvalidParams);
    assert_eq!(ErrorCode::from(&EtymoraError::Fs(FsError::WrongPosition)), ErrorCode::InvalidParams);
    assert_eq!(
        ErrorCode::from(&EtymoraError::Fs(FsError::IoError(io_error()))),
        ErrorCode::InvalidParams
    );
}

#[test]
fn classes_have_the_numbers_of_the_protocol() {
    assert_eq!(ErrorCode::InternalError.code(), -32603);
    assert_eq!(ErrorCode::InvalidRequest.code(), -32600);
    assert_eq!(ErrorCode::InvalidParams.code(), -32602);
    assert_eq!(ErrorCode::InternalError.code(), lsp_server::ErrorCode::InternalError as i32);
    assert_eq!(ErrorCode::InvalidRequest.code(), lsp_server::ErrorCode::InvalidRequest as i32);
    assert_eq!(ErrorCode::InvalidParams.code(), lsp_server::ErrorCode::InvalidParams as i32);
}

#[test]
fn every_failure_has_its_message() {
    assert_eq!(
        EtymoraError::ExampleAdapter(ExampleError::Error).message(),
        "Example error has occrued"
    );
    assert_eq!(EtymoraError::Protocol(protocol_error()).message(), "disconnected channel");
    assert_eq!(
        EtymoraError::Desirialize(json_error()).message(),
        format!(
            "Error occurs in desirializing, this is a type of ProtocolError: {}",
            json_error()
        )
    );
    assert_eq!(EtymoraError::StdIO(io_error()).message(), "Error occurs in stdio: pipe closed");
    assert_eq!(
        EtymoraError::SendMessage(message()).message(),
        format!("Sending a message failed. The message: {:?}", message())
    );
    assert_eq!(EtymoraError::Fs(FsError::WrongScheme).message(), "Given Uri has wrong scheme");
    assert_eq!(EtymoraError::Fs(FsError::WrongPosition).message(), "Wrong position");
    assert_eq!(EtymoraError::Fs(FsError::IoError(io_error())).message(), "pipe closed");
}

#[test]
fn response_error_has_the_number_and_the_message() {
    let error = ResponseError::from(EtymoraError::Fs(FsError::WrongScheme));
    assert_eq!(error.code, -32602);
    assert_eq!(error.message, "Given Uri has wrong scheme");
    let error = ResponseError::from(EtymoraError::ExampleAdapter(ExampleError::Error));
    assert_eq!(error.code, -32603);
    assert_eq!(error.message, "Example error has occrued");
    let error = ResponseError::from(EtymoraError::Protocol(protocol_error()));
    assert_eq!(error.code, -32600);
    assert_eq!(error.message, "disconnected channel");
    let lost = Message::Response(Response { id: RequestId::from(1), result: None, error: None });
    let error = ResponseError::from(EtymoraError::SendMessage(lost));
    assert_eq!(error.code, -32603);
    assert!(error.message.starts_with("Sending a message failed. The message: Response("));
}

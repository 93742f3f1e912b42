use etymora::dict_handler::DictConfigs;
use etymora::error::EtymoraError;
use etymora::markdown::MarkupKind;
use etymora::progress::{NumberOrString, WorkDoneProgress, PROGRESS_METHOD};
use etymora::server::{
    Config, Etymora, ExtractError, Handshake, HoverOptions, HoverParams, Incoming, Phase,
    Reaction, ServerCapabilities, HOVER_METHOD,
};
use etymora::text_document::{FsError, Position};
use lsp_server::{Connection, Message, ProtocolError, RequestId, Response};
use lsp_types::Uri;
use std::str::FromStr;

fn request(id: RequestId, method: &str, params: serde_json::Value) -> Incoming {
    let request = lsp_server::Request { id: id.clone(), method: method.to_string(), params };
    let params = match request.extract::<lsp_types::HoverParams>(
        <lsp_types::request::HoverRequest as lsp_types::request::Request>::METHOD,
    ) {
        Ok((_, found)) => {
            let at = found.text_document_position_params;
            Ok(HoverParams {
                uri: at.text_document.uri,
                position: Position { line: at.position.line, character: at.position.character },
            })
        }
        Err(lsp_server::ExtractError::MethodMismatch(_)) => Err(ExtractError::MethodMismatch),
        Err(lsp_server::ExtractError::JsonError { error, .. }) => {
            Err(ExtractError::JsonError(error))
        }
    };
    Incoming::Request { id, method: method.to_string(), params }
}

fn hover_request(id: i32, uri: &str, line: u32, character: u32) -> Incoming {
    let params = format!(
        "{{\"textDocument\":{{\"uri\":\"{}\"}},\"position\":{{\"line\":{},\"character\":{}}}}}",
        uri, line, character
    );
    request(RequestId::from(id), "textDocument/hover", serde_json::from_str(&params).unwrap())
}

fn disconnected() -> ProtocolError {
    let (server, client) = Connection::memory();
    drop(client);
    server.initialize(serde_json::Value::Null).unwrap_err()
}

fn unexpected() -> ProtocolError {
    let (server, client) = Connection::memory();
    let stray = Response { id: RequestId::from(7), result: None, error: None };
    client.sender.send(Message::Response(stray)).unwrap();
    server.initialize(serde_json::Value::Null).unwrap_err()
}

fn serving() -> Etymora {
    let mut server = Etymora::new();
    server.handshake(Handshake::Plain).unwrap();
    server.init().unwrap();
    server
}

#[test]
fn capabilities_offer_hover_without_progress() {
    assert_eq!(
        Etymora::gen_server_capabilities(),
        ServerCapabilities {
            hover_provider: Some(HoverOptions { work_done_progress: Some(false) })
        }
    );
}

#[test]
fn server_goes_through_its_phases() {
    let mut server = Etymora::new();
    assert_eq!(server.phase(), Phase::Uninitialized);
    server.handshake(Handshake::Plain).unwrap();
    assert_eq!(server.phase(), Phase::Initializing);
    server.init().unwrap();
    assert_eq!(server.phase(), Phase::Serving);
    let shutdown = request(RequestId::from(9), "shutdown", serde_json::Value::Null);
    let step = server.main_loop(shutdown, Ok(true)).unwrap();
    assert!(step.is_none());
    assert_eq!(server.phase(), Phase::ShuttingDown);
    server.shutdown(Ok(())).unwrap();
    assert_eq!(server.phase(), Phase::Terminated);
}

#[test]
fn handshake_with_options_configures_the_server() {
    let mut server = Etymora::new();
    let config = Config { dict_config: DictConfigs::Example(()) };
    server.handshake(Handshake::Configured(config)).unwrap();
    assert_eq!(server.phase(), Phase::Initializing);
    server.init().unwrap();
    assert_eq!(server.phase(), Phase::Serving);
    assert_eq!(Config::default().dict_config, DictConfigs::Example(()));
}

#[test]
fn unregistered_backend_ends_the_server_before_it_serves() {
    let unknown = <serde_json::Error as serde::de::Error>::unknown_variant(
        "thesaurus",
        &["example"],
    );
    let text = unknown.to_string();
    let mut server = Etymora::new();
    let result = server.handshake(Handshake::Malformed(unknown));
    match result {
        Err(EtymoraError::Desirialize(error)) => assert_eq!(error.to_string(), text),
        _ => panic!("the handshake must fail on options that cannot be read"),
    }
    assert_eq!(server.phase(), Phase::Terminated);
    assert_eq!(server.slot("/tmp/a.txt"), None);
}

#[test]
fn failed_handshake_releases_a_disconnected_transport_first() {
    let mut server = Etymora::new();
    let result = server.handshake(Handshake::Failed(disconnected()));
    assert!(matches!(result, Err(EtymoraError::Protocol(_))));
    assert_eq!(server.phase(), Phase::ShuttingDown);
    let joined = std::io::Error::new(std::io::ErrorKind::Other, "join failed");
    let result = server.shutdown(Err(joined));
    match result {
        Err(EtymoraError::StdIO(error)) => assert_eq!(error.to_string(), "join failed"),
        _ => panic!("a failed join is the failure of the shutdown"),
    }
    assert_eq!(server.phase(), Phase::Terminated);

    let mut server = Etymora::new();
    let result = server.handshake(Handshake::Failed(unexpected()));
    assert!(matches!(result, Err(EtymoraError::Protocol(_))));
    assert_eq!(server.phase(), Phase::Terminated);
}

#[test]
fn hover_with_https_uri_is_refused_and_the_server_keeps_serving() {
    let mut server = serving();
    let asked = hover_request(3, "https://example.com/", 0, 0);
    let reaction = server.main_loop(asked, Ok(false)).unwrap().unwrap();
    match reaction {
        Reaction::Respond(response) => {
            assert_eq!(response.id, RequestId::from(3));
            assert!(response.result.is_none());
            let error = response.error.unwrap();
            assert_eq!(error.code, -32602);
            assert_eq!(error.code, lsp_server::ErrorCode::InvalidParams as i32);
            assert_eq!(error.message, "Given Uri has wrong scheme");
        }
        _ => panic!("a document that is no local file must be refused"),
    }
    assert_eq!(server.phase(), Phase::Serving);
    let asked = hover_request(4, "file:///tmp/a.txt", 0, 0);
    let reaction = server.main_loop(asked, Ok(false)).unwrap().unwrap();
    assert!(matches!(reaction, Reaction::Read { .. }));
}

#[test]
fn hover_on_a_local_file_asks_for_its_line() {
    let server = serving();
    let reaction = server.massage_handler(hover_request(5, "file:///tmp/a%20b.txt", 12, 7));
    match reaction {
        Reaction::Read { id, path, position } => {
            assert_eq!(id, RequestId::from(5));
            assert_eq!(path, "/tmp/a%20b.txt");
            assert_eq!(position, Position { line: 12, character: 7 });
        }
        _ => panic!("the line of a local file is to be read"),
    }
}

#[test]
fn hover_with_string_id_keeps_the_id() {
    let server = serving();
    let asked = request(
        RequestId::from("seven".to_string()),
        HOVER_METHOD,
        serde_json::from_str(
            "{\"textDocument\":{\"uri\":\"ftp://x/y\"},\"position\":{\"line\":1,\"character\":2}}",
        )
        .unwrap(),
    );
    match server.massage_handler(asked) {
        Reaction::Respond(response) => {
            assert_eq!(response.id, RequestId::from("seven".to_string()))
        }
        _ => panic!("a document that is no local file must be refused"),
    }
}

#[test]
fn hover_with_malformed_params_is_refused() {
    let server = serving();
    let asked = request(
        RequestId::from(6),
        "textDocument/hover",
        serde_json::from_str("{\"position\":{\"line\":\"x\"}}").unwrap(),
    );
    match server.massage_handler(asked) {
        Reaction::Respond(response) => {
            assert_eq!(response.id, RequestId::from(6));
            assert!(response.result.is_none());
            let error = response.error.unwrap();
            assert_eq!(error.code, -32602);
            assert!(error
                .message
                .starts_with("Error occurs in desirializing, this is a type of ProtocolError: "));
        }
        _ => panic!("parameters that cannot be read must be refused"),
    }
}

#[test]
fn other_messages_get_no_answer() {
    let mut server = serving();
    let other = request(RequestId::from(1), "textDocument/definition", serde_json::Value::Null);
    assert!(matches!(server.massage_handler(other), Reaction::Nothing));
    assert!(matches!(server.massage_handler(Incoming::Response), Reaction::Nothing));
    assert!(matches!(server.massage_handler(Incoming::Notification), Reaction::Nothing));
    let step = server.main_loop(Incoming::Notification, Ok(false)).unwrap();
    assert!(matches!(step, Some(Reaction::Nothing)));
    assert_eq!(server.phase(), Phase::Serving);
}

#[test]
fn failed_shutdown_ends_the_server() {
    let mut server = serving();
    let asked = request(RequestId::from(2), "shutdown", serde_json::Value::Null);
    let result = server.main_loop(asked, Err(unexpected()));
    assert!(matches!(result, Err(EtymoraError::Protocol(_))));
    assert_eq!(server.phase(), Phase::Terminated);
}

#[test]
fn hover_shows_the_document_of_the_word() {
    let server = serving();
    let lines = vec!["first".to_string(), "lorem ipsum".to_string()];
    let position = Position { line: 1, character: 7 };
    let hover = server.handle_hover(&position, Ok(lines)).unwrap().unwrap();
    assert_eq!(hover.contents.kind, MarkupKind::Markdown);
    assert_eq!(hover.contents.value, "# ipsum\n\nThis message will may be seen when you didn't add the dictionary configuration.\n\nThe sample configuration can be viewed\n[here](https://github.com/satler-git/etymora/blob/main/config-examples/etymora.lua).\n");
}

#[test]
fn hover_without_word_or_dictionary_is_empty() {
    let server = serving();
    let lines = vec!["lorem ipsum".to_string()];
    let position = Position { line: 0, character: 5 };
    assert!(server.handle_hover(&position, Ok(lines)).unwrap().is_none());

    let mut unready = Etymora::new();
    unready.handshake(Handshake::Plain).unwrap();
    let lines = vec!["lorem ipsum".to_string()];
    let position = Position { line: 0, character: 0 };
    assert!(unready.handle_hover(&position, Ok(lines)).unwrap().is_none());
}

#[test]
fn hover_fails_with_the_failure_of_the_file() {
    let server = serving();
    let position = Position { line: 3, character: 0 };
    let result = server.handle_hover(&position, Ok(vec!["one".to_string()]));
    assert!(matches!(result, Err(EtymoraError::Fs(FsError::WrongPosition))));
    let error = std::io::Error::new(std::io::ErrorKind::NotFound, "gone");
    let result = server.handle_hover(&position, Err(FsError::IoError(error)));
    assert!(matches!(result, Err(EtymoraError::Fs(FsError::IoError(_)))));
}

#[test]
fn hover_response_answers_once_with_the_id() {
    let server = serving();
    let position = Position { line: 0, character: 0 };
    let response =
        server.hover_response(RequestId::from(11), &position, Ok(vec!["word".to_string()]));
    assert_eq!(response.id, RequestId::from(11));
    assert!(response.error.is_none());
    assert!(response.result.unwrap().unwrap().contents.value.starts_with("# word\n"));

    let response = server.hover_response(RequestId::from(12), &position, Ok(vec!["...".to_string()]));
    assert_eq!(response.id, RequestId::from(12));
    assert!(response.error.is_none());
    assert!(matches!(response.result, Some(None)));

    let response = server.hover_response(RequestId::from(13), &position, Ok(Vec::new()));
    assert_eq!(response.id, RequestId::from(13));
    assert!(response.result.is_none());
    let error = response.error.unwrap();
    assert_eq!(error.code, -32602);
    assert_eq!(error.message, "Wrong position");
}

#[test]
fn two_hovers_on_one_file_open_it_once() {
    let mut server = serving();
    let mut opens: u32 = 0;
    for id in 0..2 {
        let asked = hover_request(id, "file:///tmp/a.txt", 0, 0);
        match server.main_loop(asked, Ok(false)).unwrap().unwrap() {
            Reaction::Read { path, .. } => {
                if server.slot(&path).is_none() {
                    opens += 1;
                    assert_eq!(server.insert(&path), 0);
                }
                assert_eq!(server.slot(&path), Some(0));
            }
            _ => panic!("the line of a local file is to be read"),
        }
    }
    assert_eq!(opens, 1);
}

#[test]
fn hover_request_decides_by_the_uri() {
    let found = HoverParams {
        uri: Uri::from_str("file:///x").unwrap(),
        position: Position { line: 1, character: 2 },
    };
    assert!(matches!(
        Etymora::hover_request(RequestId::from(1), found),
        Reaction::Read { .. }
    ));
    let found = HoverParams {
        uri: Uri::from_str("relative/path").unwrap(),
        position: Position { line: 1, character: 2 },
    };
    assert!(matches!(
        Etymora::hover_request(RequestId::from(1), found),
        Reaction::Respond(_)
    ));
}

#[test]
fn send_failure_ends_the_server() {
    let mut server = serving();
    let lost = Message::Response(Response { id: RequestId::from(1), result: None, error: None });
    let error = server.send_failed(lost);
    assert!(matches!(error, EtymoraError::SendMessage(_)));
    assert_eq!(server.phase(), Phase::Terminated);
}

#[test]
fn reports_of_progress_name_their_stage() {
    assert_eq!(
        PROGRESS_METHOD,
        <lsp_types::notification::Progress as lsp_types::notification::Notification>::METHOD
    );

    let report = Etymora::progress_start(NumberOrString::Number(1), "Loading".to_string());
    assert_eq!(report.method, "$/progress");
    assert!(matches!(report.token, NumberOrString::Number(1)));
    assert!(matches!(report.value, WorkDoneProgress::Begin { title } if title == "Loading"));

    let report = Etymora::progress(NumberOrString::String("t".to_string()), "half".to_string());
    assert_eq!(report.method, "$/progress");
    assert!(matches!(report.token, NumberOrString::String(token) if token == "t"));
    assert!(matches!(
        report.value,
        WorkDoneProgress::Report { message: Some(message) } if message == "half"
    ));

    let report = Etymora::progress_end(NumberOrString::Number(1), None);
    assert_eq!(report.method, "$/progress");
    assert!(matches!(report.value, WorkDoneProgress::End { message: None }));
    let report = Etymora::progress_end(NumberOrString::Number(1), Some("done".to_string()));
    assert!(matches!(
        report.value,
        WorkDoneProgress::End { message: Some(message) } if message == "done"
    ));
}

#[test]
fn hover_method_is_the_method_of_the_protocol() {
    assert_eq!(
        HOVER_METHOD,
        <lsp_types::request::HoverRequest as lsp_types::request::Request>::METHOD
    );
}

#[test]
fn request_found_to_be_of_another_method_gets_no_answer() {
    let server = serving();
    let stray = Incoming::Request {
        id: RequestId::from(1),
        method: "textDocument/hover".to_string(),
        params: Err(ExtractError::MethodMismatch),
    };
    assert!(matches!(server.massage_handler(stray), Reaction::Nothing));
    let found = HoverParams {
        uri: Uri::from_str("file:///x").unwrap(),
        position: Position { line: 0, character: 0 },
    };
    let other = Incoming::Request {
        id: RequestId::from(2),
        method: "textDocument/definition".to_string(),
        params: Ok(found),
    };
    assert!(matches!(server.massage_handler(other), Reaction::Nothing));
}

#[test]
fn refusal_for_unreadable_params_tells_the_error_of_the_reading() {
    let server = serving();
    let error = serde_json::from_str::<u32>("\"x\"").unwrap_err();
    let text = error.to_string();
    let unreadable = Incoming::Request {
        id: RequestId::from(8),
        method: HOVER_METHOD.to_string(),
        params: Err(ExtractError::JsonError(error)),
    };
    match server.massage_handler(unreadable) {
        Reaction::Respond(response) => {
            assert_eq!(response.id, RequestId::from(8));
            assert!(response.result.is_none());
            let told = response.error.unwrap();
            assert_eq!(told.code, -32602);
            assert_eq!(
                told.message,
                format!(
                    "Error occurs in desirializing, this is a type of ProtocolError: {}",
                    text
                )
            );
        }
        _ => panic!("parameters that could not be read must be refused"),
    }
}

//! The server: from the handshake through the message loop to the shutdown.
//!
//! The server goes through its phases in order: `Uninitialized`,
//! `Initializing`, `Serving`, `ShuttingDown`, `Terminated`. Reading from the
//! transport, writing to it and reading files are the caller's part; the
//! caller tells the server what came of each, and the server says what is to
//! be done next.

use crate::dict_handler::{DictConfigs, Dicts};
use crate::dictionary::Dictionary;
use crate::error::{class_of, EtymoraError, ResponseError};
use crate::example::example_blocks;
use crate::markdown::{blocks, from_markdown, rendered, Block, MarkupContent, MarkupKind};
use crate::text::str_eq;
use crate::text_document::{
    is_file_scheme, read_word, try_from_uri, uri_path, uri_scheme, word_at, FileSystem, FsError,
    Position,
};
use lsp_server::RequestId;
use markdown_builder::Markdown;
use vstd::prelude::*;

verus! {

/// The method of the one request that is answered.
pub const HOVER_METHOD: &'static str = "textDocument/hover";

/// Where the server stands.
#[derive(Clone, Copy, Debug, PartialEq, Eq, Structural)]
pub enum Phase {
    /// Nothing has happened yet.
    Uninitialized,
    /// The handshake is done; the dictionary is not made yet.
    Initializing,
    /// Messages are read and answered.
    Serving,
    /// The loop has ended; the transport is still to be released.
    ShuttingDown,
    /// The server is done.
    Terminated,
}

/// Whether a server may go from `from` to `to` in one step. A server never
/// goes back, and from any phase it may end.
pub open spec fn follows(from: Phase, to: Phase) -> bool {
    ||| from == to
    ||| to == Phase::Terminated
    ||| (from == Phase::Uninitialized && to == Phase::Initializing)
    ||| (from == Phase::Uninitialized && to == Phase::ShuttingDown)
    ||| (from == Phase::Initializing && to == Phase::Serving)
    ||| (from == Phase::Serving && to == Phase::ShuttingDown)
}

/// What the client may configure.
#[derive(Clone, Copy, Debug)]
pub struct Config {
    pub dict_config: DictConfigs,
}

impl Default for Config {
    /// Without a configuration the example backend answers.
    fn default() -> (config: Config)
        ensures
            config.dict_config == DictConfigs::Example(()),
    {
        Config { dict_config: DictConfigs::Example(()) }
    }
}

/// What the server tells the client of its hovers.
#[derive(Clone, Copy, Debug, PartialEq, Eq)]
pub struct HoverOptions {
    pub work_done_progress: Option<bool>,
}

/// What the server tells the client that it can do.
#[derive(Clone, Copy, Debug, PartialEq, Eq)]
pub struct ServerCapabilities {
    pub hover_provider: Option<HoverOptions>,
}

/// How the handshake went.
#[derive(Debug)]
pub enum Handshake {
    /// The client sent no options.
    Plain,
    /// The client sent these options.
    Configured(Config),
    /// What the client sent could not be read.
    Malformed(serde_json::Error),
    /// The transport failed.
    Failed(lsp_server::ProtocolError),
}

/// What a hover request asks for: a position in a document.
#[derive(Debug)]
pub struct HoverParams {
    pub uri: lsp_types::Uri,
    pub position: Position,
}

/// What a hover shows.
#[derive(Debug)]
pub struct Hover {
    pub contents: MarkupContent,
}

/// A message from the client, as far as the server reads it.
#[derive(Debug)]
pub enum Incoming {
    /// A request, with what came of taking the parameters of a hover out of
    /// it: the parameters, or the reason why there are none.
    Request { id: RequestId, method: String, params: Result<HoverParams, ExtractError> },
    Response,
    Notification,
}

/// The answer to a request: the result, which may be empty, or the failure.
#[derive(Debug)]
pub struct Response {
    pub id: RequestId,
    pub result: Option<Option<Hover>>,
    pub error: Option<ResponseError>,
}

/// Why the parameters of a request could not be taken out of it.
#[derive(Debug)]
pub enum ExtractError {
    /// The request is of another method.
    MethodMismatch,
    /// The parameters could not be read.
    JsonError(serde_json::Error),
}

/// What is to be done about a message.
#[derive(Debug)]
pub enum Reaction {
    /// Nothing: the message gets no answer.
    Nothing,
    /// The answer is ready to be sent.
    Respond(Response),
    /// The line `position.line` of the file `path` is to be read; the answer
    /// to the request `id` is made from it.
    Read { id: RequestId, path: String, position: Position },
}

/// Whether `error` came from a channel that is disconnected.
pub uninterp spec fn channel_disconnected(error: lsp_server::ProtocolError) -> bool;

/// `ProtocolError::channel_is_disconnected`: whether the error came from a
/// channel that is disconnected.
#[verifier::external_body]
fn is_disconnected(error: &lsp_server::ProtocolError) -> (disconnected: bool)
    ensures
        disconnected == channel_disconnected(*error),
{
    error.channel_is_disconnected()
}

/// Whether `hover` shows a document with the blocks `shown`, as Markdown.
pub open spec fn shows(hover: Hover, shown: Seq<Block>) -> bool {
    &&& hover.contents.kind == MarkupKind::Markdown
    &&& exists|doc: Markdown| blocks(doc) == shown && hover.contents.value@ == rendered(doc)
}

/// Whether `response` refuses the request `id` for the failure `error`.
pub open spec fn refuses(response: Response, id: RequestId, error: EtymoraError) -> bool {
    &&& response.id == id
    &&& response.result is None
    &&& response.error matches Some(told)
    &&& told.code == class_of(error).number()
    &&& error.says(told.message@)
}

/// Whether `reaction` is what a hover request with the id `id` and the
/// parameters `found` calls for: to read the line of the document, where the
/// document is a local file, and else to refuse the request.
pub open spec fn is_hover_reaction(reaction: Reaction, id: RequestId, found: HoverParams) -> bool {
    if is_file_scheme(uri_scheme(found.uri)) {
        reaction matches Reaction::Read { id: same, path, position } && same == id && path@
            == uri_path(found.uri) && position == found.position
    } else {
        reaction matches Reaction::Respond(response) && refuses(
            response,
            id,
            EtymoraError::Fs(FsError::WrongScheme),
        )
    }
}

/// Whether `reaction` is what the message `msg` calls for: a request of the
/// method `textDocument/hover` is handled by its parameters, or refused for
/// the error that reading them gave; every other message gets no answer.
pub open spec fn is_reaction(reaction: Reaction, msg: Incoming) -> bool {
    match msg {
        Incoming::Request { id, method, params } => if method@ == HOVER_METHOD@ {
            match params {
                Ok(found) => is_hover_reaction(reaction, id, found),
                Err(ExtractError::JsonError(error)) => reaction matches Reaction::Respond(
                    response,
                ) && refuses(response, id, EtymoraError::Desirialize(error)),
                Err(ExtractError::MethodMismatch) => reaction is Nothing,
            }
        } else {
            reaction is Nothing
        },
        _ => reaction is Nothing,
    }
}

/// The hover that shows the document of a word, where it has one.
pub fn hover_of(detail: Option<Markdown>) -> (hover: Option<Hover>)
    ensures
        match detail {
            Some(doc) => hover matches Some(shown) && shown.contents.kind == MarkupKind::Markdown
                && shown.contents.value@ == rendered(doc),
            None => hover is None,
        },
{
    match detail {
        Some(doc) => Some(Hover { contents: from_markdown(doc) }),
        None => None,
    }
}

/// The server.
#[derive(Debug)]
pub struct Etymora {
    phase: Phase,
    config: Config,
    dict: Option<Dicts>,
    fs: FileSystem,
}

impl Etymora {
    /// Where the server stands.
    pub closed spec fn state(&self) -> Phase {
        self.phase
    }

    /// The dictionary of the server, once it is made.
    pub closed spec fn dictionary(&self) -> Option<Dicts> {
        self.dict
    }

    /// The configuration of the server.
    pub closed spec fn configuration(&self) -> Config {
        self.config
    }

    /// The paths of the documents that are open, each at the place of its
    /// slot.
    pub closed spec fn opened(&self) -> Seq<Seq<char>> {
        self.fs.opened()
    }

    /// What the server can do: hovers, without reports of progress.
    pub fn gen_server_capabilities() -> (capabilities: ServerCapabilities)
        ensures
            capabilities.hover_provider == Some(HoverOptions { work_done_progress: Some(false) }),
    {
        ServerCapabilities {
            hover_provider: Some(HoverOptions { work_done_progress: Some(false) }),
        }
    }

    /// A server before the handshake: no dictionary is made, no document is
    /// open, and the configuration is the default, which chooses the example
    /// backend.
    pub fn new() -> (server: Etymora)
        ensures
            server.state() == Phase::Uninitialized,
            server.dictionary() is None,
            server.opened() == Seq::<Seq<char>>::empty(),
            server.configuration().dict_config == DictConfigs::Example(()),
    {
        Etymora {
            phase: Phase::Uninitialized,
            config: Config::default(),
            dict: None,
            fs: FileSystem::new(),
        }
    }

    /// Where the server stands.
    pub fn phase(&self) -> (phase: Phase)
        ensures
            phase == self.state(),
    {
        self.phase
    }

    /// Takes note of how the handshake went.
    ///
    /// After a handshake the server is `Initializing`, configured with the
    /// options of the client or, without options, with the default. Options
    /// that could not be read end the server. So does a failed transport;
    /// where its channel is disconnected, the transport is to be released
    /// first, and the server is `ShuttingDown`.
    pub fn handshake(&mut self, outcome: Handshake) -> (result: Result<(), EtymoraError>)
        requires
            old(self).state() == Phase::Uninitialized,
        ensures
            follows(old(self).state(), final(self).state()),
            final(self).opened() == old(self).opened(),
            final(self).dictionary() == old(self).dictionary(),
            match outcome {
                Handshake::Plain => result is Ok && final(self).state() == Phase::Initializing
                    && final(self).configuration().dict_config == DictConfigs::Example(()),
                Handshake::Configured(config) => result is Ok && final(self).state()
                    == Phase::Initializing && final(self).configuration() == config,
                Handshake::Malformed(error) => result == Err::<(), EtymoraError>(
                    EtymoraError::Desirialize(error),
                ) && final(self).state() == Phase::Terminated,
                Handshake::Failed(error) => result == Err::<(), EtymoraError>(
                    EtymoraError::Protocol(error),
                ) && final(self).state() == if channel_disconnected(error) {
                    Phase::ShuttingDown
                } else {
                    Phase::Terminated
                },
            },
    {
        match outcome {
            Handshake::Plain => {
                self.config = Config::default();
                self.phase = Phase::Initializing;
                Ok(())
            },
            Handshake::Configured(config) => {
                self.config = config;
                self.phase = Phase::Initializing;
                Ok(())
            },
            Handshake::Malformed(error) => {
                self.phase = Phase::Terminated;
                Err(EtymoraError::Desirialize(error))
            },
            Handshake::Failed(error) => {
                if is_disconnected(&error) {
                    self.phase = Phase::ShuttingDown;
                } else {
                    self.phase = Phase::Terminated;
                }
                Err(EtymoraError::Protocol(error))
            },
        }
    }

    /// Makes the dictionary that the configuration chose. With the
    /// dictionary the server is `Serving`; a dictionary that cannot be made
    /// ends the server.
    pub fn init(&mut self) -> (result: Result<(), EtymoraError>)
        requires
            old(self).state() == Phase::Initializing,
        ensures
            follows(old(self).state(), final(self).state()),
            final(self).opened() == old(self).opened(),
            final(self).configuration() == old(self).configuration(),
            match old(self).configuration().dict_config {
                DictConfigs::Example(_) => result is Ok,
            },
            match result {
                Ok(_) => final(self).state() == Phase::Serving && final(self).dictionary() is Some,
                Err(_) => final(self).state() == Phase::Terminated && final(self).dictionary()
                    == old(self).dictionary(),
            },
    {
        match Dicts::init(&self.config.dict_config) {
            Ok(dict) => {
                self.dict = Some(dict);
                self.phase = Phase::Serving;
                Ok(())
            },
            Err(error) => {
                self.phase = Phase::Terminated;
                Err(error)
            },
        }
    }

    /// Takes the next message of the loop. `shutdown` is what the transport
    /// made of the message as a request to shut down.
    ///
    /// For a request the shutdown comes first: a request to shut down ends
    /// the loop, with `None`, and the server is `ShuttingDown`; a shutdown
    /// that went wrong ends the server. Any other request goes to
    /// [`Etymora::massage_handler`]. Messages that are no requests get no
    /// answer.
    pub fn main_loop(
        &mut self,
        msg: Incoming,
        shutdown: Result<bool, lsp_server::ProtocolError>,
    ) -> (result: Result<Option<Reaction>, EtymoraError>)
        requires
            old(self).state() == Phase::Serving,
        ensures
            follows(old(self).state(), final(self).state()),
            final(self).opened() == old(self).opened(),
            final(self).dictionary() == old(self).dictionary(),
            final(self).configuration() == old(self).configuration(),
            match msg {
                Incoming::Request { id, method, params } => match shutdown {
                    Err(error) => result == Err::<Option<Reaction>, EtymoraError>(
                        EtymoraError::Protocol(error),
                    ) && final(self).state() == Phase::Terminated,
                    Ok(true) => result matches Ok(None) && final(self).state()
                        == Phase::ShuttingDown,
                    Ok(false) => result matches Ok(Some(reaction)) && is_reaction(reaction, msg)
                        && final(self).state() == Phase::Serving,
                },
                _ => result matches Ok(Some(Reaction::Nothing)) && final(self).state()
                    == Phase::Serving,
            },
    {
        match msg {
            Incoming::Request { id, method, params } => match shutdown {
                Err(error) => {
                    self.phase = Phase::Terminated;
                    Err(EtymoraError::Protocol(error))
                },
                Ok(true) => {
                    self.phase = Phase::ShuttingDown;
                    Ok(None)
                },
                Ok(false) => Ok(Some(self.massage_handler(Incoming::Request { id, method, params }))),
            },
            Incoming::Response => Ok(Some(Reaction::Nothing)),
            Incoming::Notification => Ok(Some(Reaction::Nothing)),
        }
    }

    /// What is to be done about `msg`.
    ///
    /// Only requests of the method `textDocument/hover` are handled. Where
    /// the parameters of such a request could not be read, or its document
    /// is no local file, the answer refuses the request; else the line of
    /// the document is to be read. Every answer bears the id of its request.
    /// A request that was found to be of another method gets no answer.
    pub fn massage_handler(&self, msg: Incoming) -> (reaction: Reaction)
        ensures
            is_reaction(reaction, msg),
    {
        match msg {
            Incoming::Request { id, method, params } => {
                if str_eq(method.as_str(), HOVER_METHOD) {
                    match params {
                        Ok(found) => Etymora::hover_request(id, found),
                        Err(ExtractError::JsonError(error)) => {
                            let failure = EtymoraError::Desirialize(error);
                            let told = ResponseError::from(failure);
                            Reaction::Respond(Etymora::dispacth(Err(told), id))
                        },
                        Err(ExtractError::MethodMismatch) => Reaction::Nothing,
                    }
                } else {
                    Reaction::Nothing
                }
            },
            Incoming::Response => Reaction::Nothing,
            Incoming::Notification => Reaction::Nothing,
        }
    }
}

impl Etymora {
    /// What is to be done about a hover request with the id `id` and the
    /// parameters `found`.
    pub fn hover_request(id: RequestId, found: HoverParams) -> (reaction: Reaction)
        ensures
            is_hover_reaction(reaction, id, found),
    {
        match try_from_uri(&found.uri) {
            Ok(path) => Reaction::Read { id, path, position: found.position },
            Err(error) => {
                let failure = EtymoraError::Fs(error);
                let told = ResponseError::from(failure);
                Reaction::Respond(Etymora::dispacth(Err(told), id))
            },
        }
    }

    /// The hover for `position`, given what reading the file came to: the
    /// lines of the file from its first line on, or the failure.
    ///
    /// A failure to read, and a file without that line, fail the request.
    /// Without a word at the position, or without a dictionary, the hover is
    /// empty, which is no failure. Else the dictionary is asked, and the
    /// hover shows its document, or is empty where it has none.
    pub fn handle_hover(&self, position: &Position, lines: Result<Vec<String>, FsError>) -> (result:
        Result<Option<Hover>, EtymoraError>)
        ensures
            match lines {
                Err(error) => result == Err::<Option<Hover>, EtymoraError>(EtymoraError::Fs(error)),
                Ok(read) => if position.line >= read@.len() {
                    result matches Err(EtymoraError::Fs(FsError::WrongPosition))
                } else {
                    match (
                        word_at(read@[position.line as int]@, position.character as int),
                        self.dictionary(),
                    ) {
                        (Some(word), Some(Dicts::ExampleDict(_))) => result matches Ok(Some(hover))
                            && shows(hover, example_blocks(word)),
                        _ => result matches Ok(None),
                    }
                },
            },
    {
        let read = match lines {
            Ok(read) => read,
            Err(error) => {
                return Err(EtymoraError::Fs(error));
            },
        };
        let word = match read_word(&read, position) {
            Ok(Some(word)) => word,
            Ok(None) => {
                return Ok(None);
            },
            Err(error) => {
                return Err(EtymoraError::Fs(error));
            },
        };
        let dict = match &self.dict {
            Some(dict) => dict,
            None => {
                return Ok(None);
            },
        };
        match dict.lookup_ditail(&word) {
            Ok(detail) => Ok(hover_of(detail)),
            Err(error) => Err(error),
        }
    }

    /// The answer to the request `id`: the result, or the failure.
    pub fn dispacth(res: Result<Option<Hover>, ResponseError>, id: RequestId) -> (response:
        Response)
        ensures
            response.id == id,
            match res {
                Ok(result) => response.result == Some(result) && response.error is None,
                Err(error) => response.result is None && response.error == Some(error),
            },
    {
        match res {
            Ok(result) => Response { id, result: Some(result), error: None },
            Err(error) => Response { id, result: None, error: Some(error) },
        }
    }

    /// The answer to the hover request `id`, given what reading the file
    /// came to. The request is answered once: with its hover, which may be
    /// empty, or with its failure.
    pub fn hover_response(
        &self,
        id: RequestId,
        position: &Position,
        lines: Result<Vec<String>, FsError>,
    ) -> (response: Response)
        ensures
            response.id == id,
            response.result is Some <==> response.error is None,
            match lines {
                Err(error) => refuses(response, id, EtymoraError::Fs(error)),
                Ok(read) => if position.line >= read@.len() {
                    refuses(response, id, EtymoraError::Fs(FsError::WrongPosition))
                } else {
                    match (
                        word_at(read@[position.line as int]@, position.character as int),
                        self.dictionary(),
                    ) {
                        (Some(word), Some(Dicts::ExampleDict(_))) => response.result matches Some(
                            Some(hover),
                        ) && shows(hover, example_blocks(word)),
                        _ => response.result matches Some(None),
                    }
                },
            },
    {
        match self.handle_hover(position, lines) {
            Ok(hover) => Etymora::dispacth(Ok(hover), id),
            Err(error) => Etymora::dispacth(Err(ResponseError::from(error)), id),
        }
    }

    /// The slot of the document `path`, if it is open. No document is open
    /// twice.
    pub fn slot(&self, path: &str) -> (slot: Option<usize>)
        ensures
            self.opened().no_duplicates(),
            match slot {
                Some(i) => i < self.opened().len() && self.opened()[i as int] == path@,
                None => !self.opened().contains(path@),
            },
    {
        self.fs.slot(path)
    }

    /// Takes note that the document `path` was opened, and gives its slot.
    /// A document that is open already keeps its slot, and nothing changes;
    /// a new document gets the next slot.
    pub fn insert(&mut self, path: &str) -> (slot: usize)
        ensures
            follows(old(self).state(), final(self).state()),
            final(self).state() == old(self).state(),
            final(self).dictionary() == old(self).dictionary(),
            final(self).configuration() == old(self).configuration(),
            old(self).opened().contains(path@) ==> final(self).opened() == old(self).opened(),
            !old(self).opened().contains(path@) ==> final(self).opened() == old(self).opened().push(
                path@,
            ) && slot == old(self).opened().len(),
            slot < final(self).opened().len(),
            final(self).opened()[slot as int] == path@,
            final(self).opened().no_duplicates(),
    {
        self.fs.insert(path)
    }

    /// Takes note that the transport has no more messages. The loop ends as
    /// after a request to shut down.
    pub fn transport_closed(&mut self)
        requires
            old(self).state() == Phase::Serving,
        ensures
            final(self).state() == Phase::ShuttingDown,
            follows(old(self).state(), final(self).state()),
            final(self).opened() == old(self).opened(),
            final(self).dictionary() == old(self).dictionary(),
            final(self).configuration() == old(self).configuration(),
    {
        self.phase = Phase::ShuttingDown;
    }

    /// Takes note that a message could not be sent. The server cannot go on.
    pub fn send_failed(&mut self, message: lsp_server::Message) -> (error: EtymoraError)
        ensures
            error == EtymoraError::SendMessage(message),
            final(self).state() == Phase::Terminated,
            follows(old(self).state(), final(self).state()),
            final(self).opened() == old(self).opened(),
            final(self).dictionary() == old(self).dictionary(),
            final(self).configuration() == old(self).configuration(),
    {
        self.phase = Phase::Terminated;
        EtymoraError::SendMessage(message)
    }

    /// Ends the server, given what releasing the transport came to.
    pub fn shutdown(&mut self, joined: Result<(), std::io::Error>) -> (result: Result<
        (),
        EtymoraError,
    >)
        requires
            old(self).state() == Phase::ShuttingDown,
        ensures
            final(self).state() == Phase::Terminated,
            follows(old(self).state(), final(self).state()),
            final(self).opened() == old(self).opened(),
            final(self).dictionary() == old(self).dictionary(),
            final(self).configuration() == old(self).configuration(),
            match joined {
                Ok(_) => result is Ok,
                Err(error) => result == Err::<(), EtymoraError>(EtymoraError::StdIO(error)),
            },
    {
        self.phase = Phase::Terminated;
        match joined {
            Ok(_) => Ok(()),
            Err(error) => Err(EtymoraError::StdIO(error)),
        }
    }
}

} // verus!

//! Commands to the backend, its answers, and its state.

use vstd::prelude::*;
use crate::error::Error;
use crate::utils::{Method, ParsedUrl};

verus! {

/// A command of the application to the backend.
#[derive(Debug)]
pub enum BKCommand {
    /// Connect to the server at the given URL.
    Connect(String),
    /// Stop the backend.
    ShutDown,
    /// Ask the server for news.
    Sync,
}

/// A command to the backend, as a value of the specification.
pub enum CommandView {
    Connect(Seq<char>),
    ShutDown,
    Sync,
}

impl View for BKCommand {
    type V = CommandView;

    open spec fn view(&self) -> CommandView {
        match self {
            BKCommand::Connect(url) => CommandView::Connect(url@),
            BKCommand::ShutDown => CommandView::ShutDown,
            BKCommand::Sync => CommandView::Sync,
        }
    }
}

/// An answer of the backend to the application.
#[derive(Debug)]
pub enum BKResponse {
    ConnectSuccessfull,
    ShutDown,
    Sync(String),
    SyncError(Error),
    LoginError(Error),
}

/// What the backend remembers between commands.
#[derive(Debug)]
pub struct BackendData {
    /// The server the backend talks to.
    pub server_url: String,
    /// The sync token of the last sync; empty before the first.
    pub since: String,
}

/// The state of the backend.
pub struct BackendView {
    pub server_url: Seq<char>,
    pub since: Seq<char>,
}

/// The backend: it turns commands of the application into requests to the
/// server and answers to the application.
#[derive(Debug)]
pub struct Backend {
    pub data: BackendData,
}

impl View for Backend {
    type V = BackendView;

    open spec fn view(&self) -> BackendView {
        BackendView { server_url: self.data.server_url@, since: self.data.since@ }
    }
}

/// A request to the server that the backend asks to have sent.
#[derive(Debug)]
pub struct HttpRequest {
    pub method: Method,
    pub url: ParsedUrl,
    /// Seconds the request may take; 0 for no limit.
    pub timeout: u64,
}

/// What the backend asks to have done after a command.
#[derive(Debug)]
pub enum BackendAction {
    /// Send this answer to the application.
    Respond(BKResponse),
    /// Send this login request and answer with `login_response` of its outcome.
    Login(HttpRequest),
    /// Send this sync request in the background and answer with
    /// `sync_response` of its outcome.
    Sync(HttpRequest),
}

} // verus!

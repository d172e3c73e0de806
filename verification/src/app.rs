//! The application controller: what the GUI shows, and which commands it
//! sends to the backend as the backend's answers come in.

use vstd::prelude::*;
use std::sync::mpsc::RecvError;
use crate::backend::types::{BKCommand, BKResponse, Backend, BackendView, CommandView};
use crate::globals::DEFAULT_SERVER_URL;
use crate::error::Error;

verus! {

/// What the main area of the window shows.
#[derive(Debug, Clone, Copy, PartialEq, Eq, Structural)]
pub enum AppState {
    /// The index view.
    Index,
    /// Fault: the maintenance interval is exceeded.
    StoerungWartung,
}

/// A command of the GUI to itself.
#[derive(Debug, Clone, Copy, PartialEq, Eq, Structural)]
pub enum InternalCommand {
    LoadMoreNormal,
}

/// The configuration of the GUI.
#[derive(Debug, Clone, Copy, PartialEq, Eq, Structural)]
pub struct Settings {
    /// Whether the window covers the whole screen.
    pub fullscreen: bool,
}

/// A command to send, or none, as a value of the specification.
pub open spec fn opt_command_view(cmd: Option<BKCommand>) -> Option<CommandView> {
    match cmd {
        Some(c) => Some(c@),
        None => None,
    }
}

/// The state of the controller.
pub struct ControllerView {
    pub syncing: bool,
    pub server_url: Seq<char>,
    pub state: AppState,
    pub since: Option<Seq<char>>,
}

/// The names of the pages that the two stacks of the window show.
pub struct StatePages {
    /// The page of the main content.
    pub content: &'static str,
    /// The page of the header bar.
    pub headerbar: &'static str,
}

/// The application controller: it keeps the state of the GUI and decides
/// which commands go to the backend.
pub struct AppController {
    pub syncing: bool,
    pub server_url: String,
    pub state: AppState,
    pub since: Option<String>,
    pub settings: Settings,
}

impl View for AppController {
    type V = ControllerView;

    open spec fn view(&self) -> ControllerView {
        ControllerView {
            syncing: self.syncing,
            server_url: self.server_url@,
            state: self.state,
            since: match self.since {
                Some(s) => Some(s@),
                None => None,
            },
        }
    }
}

/// A sync is asked for unless one is under way.
pub open spec fn spec_sync(c: ControllerView) -> (ControllerView, Option<CommandView>) {
    if c.syncing {
        (c, None)
    } else {
        (ControllerView { syncing: true, ..c }, Some(CommandView::Sync))
    }
}

/// A sync has ended with the token `since`; the next one is asked for.
pub open spec fn spec_synced(c: ControllerView, since: Option<Seq<char>>) -> (ControllerView, Option<CommandView>) {
    spec_sync(ControllerView { syncing: false, since: since, ..c })
}

/// A sync has failed; the next one is asked for.
pub open spec fn spec_sync_error(c: ControllerView) -> (ControllerView, Option<CommandView>) {
    spec_sync(ControllerView { syncing: false, ..c })
}

/// The server that `connect` picks: the one given, else the default one.
pub open spec fn spec_server(server: Option<Seq<char>>) -> Seq<char> {
    match server {
        Some(s) => s,
        None => DEFAULT_SERVER_URL@,
    }
}

/// Connecting remembers the server and asks the backend to connect to it.
pub open spec fn spec_connect(c: ControllerView, server: Option<Seq<char>>) -> (ControllerView, CommandView) {
    (ControllerView { server_url: spec_server(server), ..c }, CommandView::Connect(spec_server(server)))
}

/// The page of the main content that shows `state`.
pub open spec fn content_page(state: AppState) -> Seq<char> {
    match state {
        AppState::Index => "index"@,
        AppState::StoerungWartung => "stoerung_wartung"@,
    }
}

/// The page of the header bar that goes with `state`: the normal one for all.
pub open spec fn headerbar_page(state: AppState) -> Seq<char> {
    "normal"@
}

impl AppController {
    /// The settings that the controller was made with.
    pub open spec fn spec_settings(&self) -> Settings {
        self.settings
    }

    /// A controller with the given settings, on the index view, not syncing,
    /// with the default server.
    pub fn new(settings: Settings) -> (c: AppController)
        ensures
            c@ == (ControllerView {
                syncing: false,
                server_url: DEFAULT_SERVER_URL@,
                state: AppState::Index,
                since: None,
            }),
            c.spec_settings() == settings,
    {
        AppController {
            syncing: false,
            server_url: DEFAULT_SERVER_URL.to_owned(),
            state: AppState::Index,
            since: None,
            settings,
        }
    }

    /// Whether the window, on activation, is to cover the whole screen.
    pub fn activate(&self) -> (fullscreen: bool)
        ensures
            fullscreen == self.spec_settings().fullscreen,
    {
        self.settings.fullscreen
    }

    /// Quitting disconnects from the backend: the command to send.
    pub fn quit(&self) -> (cmd: BKCommand)
        ensures
            cmd@ == CommandView::ShutDown,
    {
        self.disconnect()
    }

    /// Switches to `state`; the result names the pages the window shows.
    pub fn set_state(&mut self, state: AppState) -> (pages: StatePages)
        ensures
            final(self).spec_settings() == old(self).spec_settings(),
            final(self)@ == (ControllerView { state: state, ..old(self)@ }),
            pages.content@ == content_page(state),
            pages.headerbar@ == headerbar_page(state),
    {
        self.state = state;
        let content: &'static str = match self.state {
            AppState::Index => "index",
            AppState::StoerungWartung => "stoerung_wartung",
        };
        let headerbar: &'static str = "normal";
        StatePages { content, headerbar }
    }

    /// Loading more of the normal view: nothing to do yet.
    pub fn load_more_normal(&mut self)
        ensures
            final(self).spec_settings() == old(self).spec_settings(),
            final(self)@ == old(self)@,
    {
    }

    /// The initial state: the index view, and a connection to the default
    /// server.
    pub fn init(&mut self) -> (r: (StatePages, BKCommand))
        ensures
            final(self).spec_settings() == old(self).spec_settings(),
            final(self)@ == spec_connect(ControllerView { state: AppState::Index, ..old(self)@ }, None).0,
            r.1@ == spec_connect(ControllerView { state: AppState::Index, ..old(self)@ }, None).1,
            r.0.content@ == content_page(AppState::Index),
            r.0.headerbar@ == headerbar_page(AppState::Index),
    {
        let pages = self.set_state(AppState::Index);
        let cmd = self.connect(None);
        (pages, cmd)
    }

    /// Asks for a sync unless one is under way: the command to send, if any.
    pub fn sync(&mut self) -> (cmd: Option<BKCommand>)
        ensures
            final(self).spec_settings() == old(self).spec_settings(),
            (final(self)@, opt_command_view(cmd)) == spec_sync(old(self)@),
    {
        if !self.syncing {
            self.syncing = true;
            Some(BKCommand::Sync)
        } else {
            None
        }
    }

    /// A sync has ended with the token `since`: remembers it and asks for
    /// the next sync.
    pub fn synced(&mut self, since: Option<String>) -> (cmd: Option<BKCommand>)
        ensures
            final(self).spec_settings() == old(self).spec_settings(),
            (final(self)@, opt_command_view(cmd)) == spec_synced(old(self)@, match since {
                Some(s) => Some(s@),
                None => None,
            }),
    {
        self.syncing = false;
        self.since = since;
        self.sync()
    }

    /// A sync has failed: asks for the next one.
    pub fn sync_error(&mut self) -> (cmd: Option<BKCommand>)
        ensures
            final(self).spec_settings() == old(self).spec_settings(),
            (final(self)@, opt_command_view(cmd)) == spec_sync_error(old(self)@),
    {
        self.syncing = false;
        self.sync()
    }

    /// Connects to `server`, or to the default server where none is given:
    /// the command to send.
    pub fn connect(&mut self, server: Option<String>) -> (cmd: BKCommand)
        ensures
            final(self).spec_settings() == old(self).spec_settings(),
            (final(self)@, cmd@) == spec_connect(old(self)@, match server {
                Some(s) => Some(s@),
                None => None,
            }),
    {
        self.server_url = match server {
            Some(s) => s,
            None => DEFAULT_SERVER_URL.to_owned(),
        };
        let url = self.server_url.clone();
        BKCommand::Connect(url)
    }

    /// Disconnecting stops the backend: the command to send.
    pub fn disconnect(&self) -> (cmd: BKCommand)
        ensures
            cmd@ == CommandView::ShutDown,
    {
        BKCommand::ShutDown
    }
}

/// What the GUI does with an answer of the backend.
#[derive(Debug)]
pub enum ResponseAction {
    /// The backend is gone: stop listening.
    Stop,
    /// The GUI is shutting down: the answer is dropped.
    Ignore,
    /// The backend has shut down: drop all later answers.
    ShuttingDown,
    /// Connected: start syncing (`AppController::sync`).
    Sync,
    /// A sync has ended (`AppController::synced`).
    Synced(Option<String>),
    /// A sync has failed (`AppController::sync_error`).
    SyncError,
    /// An answer the GUI does not handle: report it.
    Unexpected(BKResponse),
}

/// One answer of the backend, received while `shutting_down` holds or not:
/// whether the GUI is shutting down afterwards, and what it does.
pub open spec fn spec_response_step(shutting_down: bool, recv: Result<BKResponse, RecvError>) -> (bool, ResponseAction) {
    match recv {
        Err(_) => (shutting_down, ResponseAction::Stop),
        Ok(resp) => if shutting_down {
            (true, ResponseAction::Ignore)
        } else {
            match resp {
                BKResponse::ShutDown => (true, ResponseAction::ShuttingDown),
                BKResponse::ConnectSuccessfull => (false, ResponseAction::Sync),
                BKResponse::Sync(since) => (false, ResponseAction::Synced(Some(since))),
                BKResponse::SyncError(_) => (false, ResponseAction::SyncError),
                BKResponse::LoginError(e) => (false, ResponseAction::Unexpected(BKResponse::LoginError(e))),
            }
        },
    }
}

/// Decides what the GUI does with one answer of the backend, and whether it
/// is shutting down afterwards.
pub fn backend_loop_step(shutting_down: &mut bool, recv: Result<BKResponse, RecvError>) -> (r: ResponseAction)
    ensures
        (*final(shutting_down), r) == spec_response_step(*old(shutting_down), recv),
{
    let recv = match recv {
        Err(_) => return ResponseAction::Stop,
        Ok(resp) => resp,
    };
    if *shutting_down {
        return ResponseAction::Ignore;
    }
    match recv {
        BKResponse::ShutDown => {
            *shutting_down = true;
            ResponseAction::ShuttingDown
        },
        BKResponse::ConnectSuccessfull => ResponseAction::Sync,
        BKResponse::Sync(since) => ResponseAction::Synced(Some(since)),
        BKResponse::SyncError(_) => ResponseAction::SyncError,
        BKResponse::LoginError(e) => ResponseAction::Unexpected(BKResponse::LoginError(e)),
    }
}

/// The internal command to carry out, or `None` where the channel is gone
/// and the loop stops.
pub fn appop_loop_step(recv: Result<InternalCommand, RecvError>) -> (r: Option<InternalCommand>)
    ensures
        match recv {
            Ok(cmd) => r == Some(cmd),
            Err(_) => r is None,
        },
{
    match recv {
        Ok(InternalCommand::LoadMoreNormal) => Some(InternalCommand::LoadMoreNormal),
        Err(_) => None,
    }
}

/// The answers of the backend, one after the other, from the state
/// `shutting_down`: whether the GUI is shutting down at the end, and what it
/// did with each.
pub open spec fn spec_response_run(shutting_down: bool, answers: Seq<Result<BKResponse, RecvError>>) -> (bool, Seq<ResponseAction>)
    decreases answers.len(),
{
    if answers.len() == 0 {
        (shutting_down, Seq::empty())
    } else {
        let (sd, action) = spec_response_step(shutting_down, answers[0]);
        let (end, rest) = spec_response_run(sd, answers.drop_first());
        (end, seq![action] + rest)
    }
}

/// Once the backend has reported its shutdown, the GUI acts on no later
/// answer: each is dropped, or ends the loop where the backend is gone.
pub proof fn lemma_shutdown_is_final(answers: Seq<Result<BKResponse, RecvError>>)
    ensures
        spec_response_run(true, answers).0,
        spec_response_run(true, answers).1.len() == answers.len(),
        forall|i: int| 0 <= i < answers.len() ==> {
            let a = #[trigger] spec_response_run(true, answers).1[i];
            a is Ignore || a is Stop
        },
    decreases answers.len(),
{
    if answers.len() > 0 {
        lemma_shutdown_is_final(answers.drop_first());
        let rest = spec_response_run(true, answers.drop_first()).1;
        let head = spec_response_step(true, answers[0]).1;
        assert forall|i: int| 0 <= i < answers.len() implies {
            let a = #[trigger] spec_response_run(true, answers).1[i];
            a is Ignore || a is Stop
        } by {
            if i > 0 {
                assert(spec_response_run(true, answers).1[i] == rest[i - 1]);
            }
        }
    }
}

/// Asking for a sync while one is under way changes nothing and sends
/// nothing.
pub proof fn lemma_sync_single_flight(c: ControllerView)
    ensures
        spec_sync(spec_sync(c).0).0 == spec_sync(c).0,
        spec_sync(spec_sync(c).0).1 is None,
{
}

/// Every sync that ends, well or not, is followed by the next one.
pub proof fn lemma_sync_restarts(c: ControllerView, since: Option<Seq<char>>)
    ensures
        spec_synced(c, since).0.syncing,
        spec_synced(c, since).0.since == since,
        spec_synced(c, since).1 == Some(CommandView::Sync),
        spec_sync_error(c).0.syncing,
        spec_sync_error(c).1 == Some(CommandView::Sync),
{
}

/// What happens to the controller's syncing: a sync is asked for, or one
/// ends with a token, or one fails.
pub enum SyncEvent {
    Request,
    Done(Option<Seq<char>>),
    Failed,
}

/// The controller's reaction to one syncing event.
pub open spec fn spec_sync_event(c: ControllerView, e: SyncEvent) -> (ControllerView, Option<CommandView>) {
    match e {
        SyncEvent::Request => spec_sync(c),
        SyncEvent::Done(since) => spec_synced(c, since),
        SyncEvent::Failed => spec_sync_error(c),
    }
}

/// The controller after `events`, with the number of syncs it asked for
/// and the number of syncs that ended.
pub open spec fn spec_sync_run(c: ControllerView, events: Seq<SyncEvent>) -> (ControllerView, int, int)
    decreases events.len(),
{
    if events.len() == 0 {
        (c, 0, 0)
    } else {
        let (c1, cmd) = spec_sync_event(c, events[0]);
        let (end, asked, ended) = spec_sync_run(c1, events.drop_first());
        let asked_here: int = if cmd is Some { 1 } else { 0 };
        let ended_here: int = if events[0] is Request { 0 } else { 1 };
        (end, asked + asked_here, ended + ended_here)
    }
}

/// Whether every sync that ends in `events` ends while the controller has one
/// under way, as the backend answers only the syncs it was asked for.
pub open spec fn spec_replies_answer(c: ControllerView, events: Seq<SyncEvent>) -> bool
    decreases events.len(),
{
    if events.len() == 0 {
        true
    } else {
        &&& (events[0] is Request || c.syncing)
        &&& spec_replies_answer(spec_sync_event(c, events[0]).0, events.drop_first())
    }
}

/// The controller keeps at most one sync under way: over any run of events
/// in which syncs end only while one is under way, the syncs asked for
/// outnumber the syncs ended by exactly the change of the `syncing` flag.
/// So from a controller that is not syncing, at most one sync is ever
/// unanswered, and one is exactly while `syncing` holds.
pub proof fn lemma_one_sync_at_a_time(c: ControllerView, events: Seq<SyncEvent>)
    requires
        spec_replies_answer(c, events),
    ensures
        ({
            let (end, asked, ended) = spec_sync_run(c, events);
            asked - ended == (if end.syncing { 1int } else { 0int }) - (if c.syncing { 1int } else { 0int })
        }),
    decreases events.len(),
{
    if events.len() > 0 {
        let (c1, cmd) = spec_sync_event(c, events[0]);
        lemma_one_sync_at_a_time(c1, events.drop_first());
    }
}

/// The backend follows the controller: the command that `connect` makes
/// points the backend at the very server that the controller now holds.
pub proof fn lemma_backend_follows_controller(c: ControllerView, server: Option<Seq<char>>, v: BackendView)
    ensures
        Backend::spec_after_command(v, Some(spec_connect(c, server).1)).server_url
            == spec_connect(c, server).0.server_url,
        spec_connect(c, server).0.server_url == spec_server(server),
{
}

/// Before shutdown, every failed sync, whatever error it carries, makes the
/// GUI restart syncing; the GUI does not begin to shut down on it.
pub proof fn lemma_sync_error_restarts_sync(e: Error)
    ensures
        spec_response_step(false, Ok(BKResponse::SyncError(e))) == (false, ResponseAction::SyncError),
{
}

/// Only the end of the channel ends the GUI's loop over the backend's
/// answers: no answer does, whatever it is and whether the GUI is shutting
/// down or not. Before shutdown a failed login, whatever its error, is
/// reported and the loop goes on; the end of the channel always ends it.
pub proof fn lemma_only_channel_end_stops(shutting_down: bool, resp: BKResponse, e: Error, closed: RecvError)
    ensures
        !(spec_response_step(shutting_down, Ok(resp)).1 is Stop),
        spec_response_step(shutting_down, Err(closed)).1 is Stop,
        spec_response_step(shutting_down, Err(closed)).0 == shutting_down,
        spec_response_step(false, Ok(BKResponse::LoginError(e)))
            == (false, ResponseAction::Unexpected(BKResponse::LoginError(e))),
{
}

} // verus!

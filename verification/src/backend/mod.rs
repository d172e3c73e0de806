//! The backend: it takes the application's commands one by one.

pub mod register;
pub mod sync;
pub mod types;

pub use self::types::{BKCommand, BKResponse, Backend, BackendAction, BackendData, BackendView, CommandView, HttpRequest};

use vstd::prelude::*;
use std::sync::mpsc::RecvError;
use crate::error::Error;
use crate::globals::{DEFAULT_SERVER_URL, TIMEOUT};
use crate::backend::sync::sync_timeout;
use crate::utils::{Method, ParsedUrl, build_url, built_url, client_path, joined_url, params_view, parsed_url, url_outcome};
use url::ParseError;

verus! {

/// The end of the command channel: all senders are gone.
#[verifier::external_type_specification]
#[verifier::external_body]
pub struct ExRecvError(RecvError);

impl Backend {
    /// The URL of a request to `path` with the query `pairs` at the server
    /// `server`, as `url` makes it; where that fails, the URL parser's error.
    pub open spec fn spec_request_url(server: Seq<char>, path: Seq<char>, pairs: Seq<(Seq<char>, Seq<char>)>) -> Result<Seq<char>, ParseError> {
        match parsed_url(server) {
            Ok(base) => built_url(base, client_path(path), pairs),
            Err(e) => Err(e),
        }
    }

    /// Whether `r` is the outcome of preparing a request to the root of the
    /// server `server` with the given timeout: the GET request to the URL
    /// `url` makes, or the URL parser's error as `UrlParseError`.
    pub open spec fn spec_request_outcome(r: Result<HttpRequest, Error>, server: Seq<char>, timeout: u64) -> bool {
        match Self::spec_request_url(server, Seq::empty(), Seq::empty()) {
            Ok(text) => r matches Ok(req) && req.method == Method::Get && req.url@ == text && req.timeout == timeout,
            Err(e) => r == Err::<HttpRequest, Error>(Error::UrlParseError(e)),
        }
    }

    /// A backend that talks to the default server and has not synced yet.
    pub fn new() -> (bk: Backend)
        ensures
            bk.data.server_url@ == DEFAULT_SERVER_URL@,
            bk.data.since@ == Seq::<char>::empty(),
    {
        let data = BackendData {
            server_url: DEFAULT_SERVER_URL.to_owned(),
            since: "".to_owned(),
        };
        proof {
            reveal_strlit("");
        }
        Backend { data }
    }

    /// The server's URL, parsed.
    pub fn get_base_url(&self) -> (r: Result<ParsedUrl, Error>)
        ensures
            url_outcome(r, parsed_url(self.data.server_url@)),
    {
        ParsedUrl::parse(self.data.server_url.as_str())
    }

    /// The URL of a request to `path`, below the server's root, with the
    /// query `params`.
    pub fn url(&self, path: &str, params: Vec<(&str, String)>) -> (r: Result<ParsedUrl, Error>)
        ensures
            url_outcome(r, Self::spec_request_url(self.data.server_url@, path@, params_view(params@))),
    {
        let base = self.get_base_url()?;
        let mut full_path = "/".to_owned();
        full_path.append(path);
        proof {
            reveal_strlit("/");
            assert(full_path@ =~= client_path(path@));
        }
        build_url(&base, full_path.as_str(), params)
    }

    /// The state after a command, `None` standing for the end of the channel:
    /// connecting points the backend at the new server, nothing else
    /// changes it.
    pub open spec fn spec_after_command(v: BackendView, cmd: Option<CommandView>) -> BackendView {
        match cmd {
            Some(CommandView::Connect(url)) => BackendView { server_url: url, ..v },
            _ => v,
        }
    }

    /// Whether the backend goes on taking commands after `cmd`, `None`
    /// standing for the end of the channel: it stops at `ShutDown` and at
    /// the end of the channel.
    pub open spec fn spec_keeps_running(cmd: Option<CommandView>) -> bool {
        match cmd {
            Some(CommandView::Connect(_)) => true,
            Some(CommandView::Sync) => true,
            _ => false,
        }
    }

    /// The backend's loop over `cmds`, from the state `v`: it takes them one
    /// after the other, in their order, up to and with the first one after
    /// which it stops. The result is the state at the end and the number of
    /// commands taken.
    pub open spec fn spec_command_run(v: BackendView, cmds: Seq<Option<CommandView>>) -> (BackendView, nat)
        decreases cmds.len(),
    {
        if cmds.len() == 0 {
            (v, 0)
        } else {
            let next = Self::spec_after_command(v, cmds[0]);
            if Self::spec_keeps_running(cmds[0]) {
                let (end, taken) = Self::spec_command_run(next, cmds.drop_first());
                (end, taken + 1)
            } else {
                (next, 1)
            }
        }
    }

    /// Whether `req` is the request that reaches the server at `server` with
    /// an empty path and no query, with the given timeout.
    pub open spec fn spec_is_root_request(req: HttpRequest, server: Seq<char>, timeout: u64) -> bool {
        &&& req.method == Method::Get
        &&& Self::spec_request_url(server, Seq::empty(), Seq::empty()) == Ok::<Seq<char>, ParseError>(req.url@)
        &&& req.timeout == timeout
    }

    /// Carries out one command of the application. The result says whether
    /// the backend goes on taking commands, and what is to be done: a
    /// request to send, or an answer to the application.
    pub fn command_recv(&mut self, cmd: Result<BKCommand, RecvError>) -> (r: (bool, Option<BackendAction>))
        ensures
            final(self)@ == Self::spec_after_command(old(self)@, match cmd {
                Ok(c) => Some(c@),
                Err(_) => None,
            }),
            r.0 == Self::spec_keeps_running(match cmd {
                Ok(c) => Some(c@),
                Err(_) => None,
            }),
            match cmd {
                Ok(BKCommand::Connect(url)) => {
                    &&& r.0
                    &&& final(self).data.server_url@ == url@
                    &&& final(self).data.since@ == old(self).data.since@
                    &&& match Self::spec_request_url(url@, Seq::empty(), Seq::empty()) {
                        Ok(_) => r.1 matches Some(BackendAction::Login(req))
                            && Self::spec_is_root_request(req, url@, TIMEOUT),
                        Err(e) => r.1 == Some(BackendAction::Respond(BKResponse::LoginError(Error::UrlParseError(e)))),
                    }
                },
                Ok(BKCommand::Sync) => {
                    &&& r.0
                    &&& final(self).data.server_url@ == old(self).data.server_url@
                    &&& final(self).data.since@ == old(self).data.since@
                    &&& match Self::spec_request_url(old(self).data.server_url@, Seq::empty(), Seq::empty()) {
                        Ok(_) => r.1 matches Some(BackendAction::Sync(req))
                            && Self::spec_is_root_request(req, old(self).data.server_url@, sync_timeout(old(self).data.since@)),
                        Err(e) => r.1 == Some(BackendAction::Respond(BKResponse::SyncError(Error::UrlParseError(e)))),
                    }
                },
                Ok(BKCommand::ShutDown) => {
                    &&& !r.0
                    &&& r.1 matches Some(BackendAction::Respond(BKResponse::ShutDown))
                    &&& final(self).data.server_url@ == old(self).data.server_url@
                    &&& final(self).data.since@ == old(self).data.since@
                },
                Err(_) => {
                    &&& !r.0
                    &&& r.1 is None
                    &&& final(self).data.server_url@ == old(self).data.server_url@
                    &&& final(self).data.since@ == old(self).data.since@
                },
            },
    {
        match cmd {
            Ok(BKCommand::Connect(url)) => {
                match register::login(self, url) {
                    Ok(req) => (true, Some(BackendAction::Login(req))),
                    Err(e) => (true, Some(BackendAction::Respond(BKResponse::LoginError(e)))),
                }
            },
            Ok(BKCommand::Sync) => {
                match sync::sync(self) {
                    Ok(req) => (true, Some(BackendAction::Sync(req))),
                    Err(e) => (true, Some(BackendAction::Respond(BKResponse::SyncError(e)))),
                }
            },
            Ok(BKCommand::ShutDown) => (false, Some(BackendAction::Respond(BKResponse::ShutDown))),
            Err(_) => (false, None),
        }
    }
}

/// After a connection, the backend's syncs go to the server it connected to,
/// at the very URL its login went to, and wait as long as before.
pub proof fn lemma_sync_follows_connect(v: BackendView, url: Seq<char>)
    ensures
        ({
            let after = Backend::spec_after_command(v, Some(CommandView::Connect(url)));
            &&& after.server_url == url
            &&& Backend::spec_request_url(after.server_url, Seq::empty(), Seq::empty())
                == Backend::spec_request_url(url, Seq::empty(), Seq::empty())
            &&& sync_timeout(after.since) == sync_timeout(v.since)
        }),
{
}

/// Syncing and shutting down leave the backend's state as it was.
pub proof fn lemma_only_connect_changes_state(v: BackendView)
    ensures
        Backend::spec_after_command(v, Some(CommandView::Sync)) == v,
        Backend::spec_after_command(v, Some(CommandView::ShutDown)) == v,
        Backend::spec_after_command(v, None) == v,
{
}

/// A request URL fails exactly where the server's URL does not parse, or
/// the path does not resolve against it; the query never makes it fail.
pub proof fn lemma_request_fails_only_on_parse_or_join(
    server: Seq<char>,
    path: Seq<char>,
    pairs: Seq<(Seq<char>, Seq<char>)>,
)
    ensures
        Backend::spec_request_url(server, path, pairs) is Ok <==> {
            &&& parsed_url(server) is Ok
            &&& joined_url(parsed_url(server)->Ok_0, client_path(path)) is Ok
        },
        match parsed_url(server) {
            Err(e) => Backend::spec_request_url(server, path, pairs) == Err::<Seq<char>, ParseError>(e),
            Ok(base) => match joined_url(base, client_path(path)) {
                Err(e) => Backend::spec_request_url(server, path, pairs) == Err::<Seq<char>, ParseError>(e),
                Ok(_) => Backend::spec_request_url(server, path, pairs) is Ok,
            },
        },
{
}

/// The backend takes the commands in their order and stops at the first
/// `ShutDown` or end of the channel: where `cmds[j]` is the first such
/// command, it takes exactly the first `j + 1` commands, and what follows
/// has no effect.
pub proof fn lemma_command_loop_stops_at_first_stop(v: BackendView, cmds: Seq<Option<CommandView>>, j: int)
    requires
        0 <= j < cmds.len(),
        !Backend::spec_keeps_running(cmds[j]),
        forall|i: int| 0 <= i < j ==> Backend::spec_keeps_running(#[trigger] cmds[i]),
    ensures
        Backend::spec_command_run(v, cmds).1 == j + 1,
        Backend::spec_command_run(v, cmds) == Backend::spec_command_run(v, cmds.take(j + 1)),
    decreases j,
{
    if j > 0 {
        let next = Backend::spec_after_command(v, cmds[0]);
        assert(Backend::spec_keeps_running(cmds[0]));
        assert forall|i: int| 0 <= i < j - 1 implies Backend::spec_keeps_running(#[trigger] cmds.drop_first()[i]) by {
            assert(cmds.drop_first()[i] == cmds[i + 1]);
        }
        lemma_command_loop_stops_at_first_stop(next, cmds.drop_first(), j - 1);
        assert(cmds.take(j + 1).drop_first() =~= cmds.drop_first().take(j));
        assert(cmds.take(j + 1)[0] == cmds[0]);
    } else {
        assert(cmds.take(1)[0] == cmds[0]);
    }
}

/// Where no command stops the backend, it takes all of them, in order.
pub proof fn lemma_command_loop_takes_all(v: BackendView, cmds: Seq<Option<CommandView>>)
    requires
        forall|i: int| 0 <= i < cmds.len() ==> Backend::spec_keeps_running(#[trigger] cmds[i]),
    ensures
        Backend::spec_command_run(v, cmds).1 == cmds.len(),
    decreases cmds.len(),
{
    if cmds.len() > 0 {
        assert(Backend::spec_keeps_running(cmds[0]));
        assert forall|i: int| 0 <= i < cmds.len() - 1 implies Backend::spec_keeps_running(#[trigger] cmds.drop_first()[i]) by {
            assert(cmds.drop_first()[i] == cmds[i + 1]);
        }
        lemma_command_loop_takes_all(Backend::spec_after_command(v, cmds[0]), cmds.drop_first());
    }
}

} // verus!

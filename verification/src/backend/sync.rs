//! Asking the server for news.

use vstd::prelude::*;
use serde_json::Value as JsonValue;
use crate::backend::types::{Backend, BKResponse, HttpRequest};
use crate::error::Error;
use crate::utils::{params_view, Method};

verus! {

/// Seconds a sync may wait: none before the first sync, 30 after.
pub open spec fn sync_timeout(since: Seq<char>) -> u64 {
    if since.len() == 0 {
        0
    } else {
        30
    }
}

/// A sync waits without limit exactly before the first sync, when there is
/// no token, and 30 seconds whenever there is one, however short.
pub proof fn lemma_sync_timeout(since: Seq<char>)
    ensures
        since.len() == 0 ==> sync_timeout(since) == 0,
        since.len() > 0 ==> sync_timeout(since) == 30,
{
}

/// Prepares the request of a sync: a GET of the server's root, which waits
/// for news once a sync has been made.
pub fn sync(bk: &Backend) -> (r: Result<HttpRequest, Error>)
    ensures
        Backend::spec_request_outcome(r, bk.data.server_url@, sync_timeout(bk.data.since@)),
{
    let timeout: u64 = if bk.data.since.as_str().is_empty() {
        0
    } else {
        30
    };
    let _base = bk.get_base_url()?;
    let params: Vec<(&str, String)> = Vec::new();
    proof {
        reveal_strlit("");
        assert(params_view(params@) =~= Seq::empty());
    }
    let url = bk.url("", params)?;
    Ok(HttpRequest { method: Method::Get, url, timeout })
}

/// The answer to the application once the sync request has its outcome:
/// none for a success, the error otherwise.
pub fn sync_response(result: Result<JsonValue, Error>) -> (r: Option<BKResponse>)
    ensures
        match result {
            Ok(_) => r is None,
            Err(e) => r == Some(BKResponse::SyncError(e)),
        },
{
    match result {
        Ok(_r) => None,
        Err(err) => Some(BKResponse::SyncError(err)),
    }
}

} // verus!

//! Logging in at the server.

use vstd::prelude::*;
use serde_json::Value as JsonValue;
use crate::backend::types::{Backend, BKResponse, HttpRequest};
use crate::error::Error;
use crate::globals;
use crate::utils::{params_view, Method};

verus! {

/// Points the backend at the server `url` and prepares the request that
/// checks that the server answers: a GET of the server's root with the login
/// timeout.
pub fn login(bk: &mut Backend, url: String) -> (r: Result<HttpRequest, Error>)
    ensures
        final(bk).data.server_url@ == url@,
        final(bk).data.since@ == old(bk).data.since@,
        Backend::spec_request_outcome(r, url@, globals::TIMEOUT),
{
    bk.data.server_url = url;
    let params: Vec<(&str, String)> = Vec::new();
    proof {
        reveal_strlit("");
        assert(params_view(params@) =~= Seq::empty());
    }
    let url = bk.url("", params)?;
    Ok(HttpRequest { method: Method::Get, url, timeout: globals::TIMEOUT })
}

/// The answer to the application once the login request has its outcome.
pub fn login_response(result: Result<JsonValue, Error>) -> (r: BKResponse)
    ensures
        match result {
            Ok(_) => r is ConnectSuccessfull,
            Err(e) => r == BKResponse::LoginError(e),
        },
{
    match result {
        Ok(_js) => BKResponse::ConnectSuccessfull,
        Err(err) => BKResponse::LoginError(err),
    }
}

} // verus!

//! URLs of the requests the backend sends, and the decisions around a
//! request.
//!
//! A parsed URL is kept together with its serialization, which is what the
//! specification speaks of: `url::Url` values compare by their serialization
//! alone, so what the `url` crate computes from a URL is a function of it.

use vstd::prelude::*;
use url::ParseError;
use reqwest::Error as HttpError;
use serde_json::Value as JsonValue;
use crate::error::Error;

verus! {

/// A URL as the `url` crate holds it; it is carried, never inspected.
#[verifier::external_type_specification]
#[verifier::external_body]
pub struct ExUrl(url::Url);

/// A parsed URL, with its serialization. Only the functions of this module
/// that call the `url` crate make or change one, and each keeps `text` equal
/// to `url.as_str()`.
#[derive(Debug)]
pub struct ParsedUrl {
    url: url::Url,
    text: String,
}

impl View for ParsedUrl {
    type V = Seq<char>;

    /// The serialization of the URL.
    closed spec fn view(&self) -> Seq<char> {
        self.text@
    }
}

/// What `url::Url::parse` makes of `input`: the resulting URL's
/// serialization, or the error it returns.
pub uninterp spec fn parsed_url(input: Seq<char>) -> Result<Seq<char>, ParseError>;

/// What `url::Url::join` makes of `input` relative to the URL whose
/// serialization is `base`: the resulting URL's serialization, or the error
/// it returns.
pub uninterp spec fn joined_url(base: Seq<char>, input: Seq<char>) -> Result<Seq<char>, ParseError>;

/// The serialization of the URL whose serialization is `url`, after
/// `query_pairs_mut().clear()`, which the `url` crate documents as equal to
/// `set_query(Some(""))`.
pub uninterp spec fn query_cleared(url: Seq<char>) -> Seq<char>;

/// The serialization of the URL whose serialization is `url`, after
/// `query_pairs_mut().append_pair(name, value)`.
pub uninterp spec fn pair_appended(url: Seq<char>, name: Seq<char>, value: Seq<char>) -> Seq<char>;

/// Calls `url::Url::parse`; what it gives, the URL or the error, is the one
/// named by `parsed_url`.
#[verifier::external_body]
fn parse_url(input: &str) -> (r: Result<ParsedUrl, ParseError>)
    ensures
        parsed_url(input@) == match r {
            Ok(u) => Ok::<Seq<char>, ParseError>(u@),
            Err(e) => Err::<Seq<char>, ParseError>(e),
        },
{
    match url::Url::parse(input) {
        Ok(u) => Ok(ParsedUrl { text: u.as_str().to_owned(), url: u }),
        Err(e) => Err(e),
    }
}

/// Calls `url::Url::join` on `base`; what it gives, the URL or the error,
/// is the one named by `joined_url`.
#[verifier::external_body]
fn join_url(base: &ParsedUrl, input: &str) -> (r: Result<ParsedUrl, ParseError>)
    ensures
        joined_url(base@, input@) == match r {
            Ok(u) => Ok::<Seq<char>, ParseError>(u@),
            Err(e) => Err::<Seq<char>, ParseError>(e),
        },
{
    match base.url.join(input) {
        Ok(u) => Ok(ParsedUrl { text: u.as_str().to_owned(), url: u }),
        Err(e) => Err(e),
    }
}

/// Empties the query of `u` with `query_pairs_mut().clear()`, as named by
/// `query_cleared`.
#[verifier::external_body]
fn clear_query(u: &mut ParsedUrl)
    ensures
        final(u)@ == query_cleared(old(u)@),
{
    u.url.query_pairs_mut().clear();
    u.text = u.url.as_str().to_owned();
}

/// Appends `name=value` to the query of `u` with
/// `query_pairs_mut().append_pair`, as named by `pair_appended`.
#[verifier::external_body]
fn append_pair(u: &mut ParsedUrl, name: &str, value: &str)
    ensures
        final(u)@ == pair_appended(old(u)@, name@, value@),
{
    u.url.query_pairs_mut().append_pair(name, value);
    u.text = u.url.as_str().to_owned();
}

impl ParsedUrl {
    /// Parses `input` as an absolute URL; the parser's error comes back as
    /// `UrlParseError`.
    pub fn parse(input: &str) -> (r: Result<ParsedUrl, Error>)
        ensures
            url_outcome(r, parsed_url(input@)),
    {
        url_result(parse_url(input))
    }

    /// The serialization of the URL.
    pub fn as_str(&self) -> (r: &str)
        ensures
            r@ == self@,
    {
        self.text.as_str()
    }
}

/// The query parameters as pairs of character sequences.
pub open spec fn params_view(params: Seq<(&str, String)>) -> Seq<(Seq<char>, Seq<char>)> {
    params.map_values(|p: (&str, String)| (p.0@, p.1@))
}

/// `url` with the pairs of `pairs` appended to its query, one after the other.
pub open spec fn with_pairs(url: Seq<char>, pairs: Seq<(Seq<char>, Seq<char>)>) -> Seq<char>
    decreases pairs.len(),
{
    if pairs.len() == 0 {
        url
    } else {
        pair_appended(with_pairs(url, pairs.drop_last()), pairs.last().0, pairs.last().1)
    }
}

/// The URL that `build_url` makes: `path` resolved against `base`, its query
/// replaced by `pairs`; the error of resolving, exactly where that fails.
pub open spec fn built_url(base: Seq<char>, path: Seq<char>, pairs: Seq<(Seq<char>, Seq<char>)>) -> Result<Seq<char>, ParseError> {
    match joined_url(base, path) {
        Ok(joined) => Ok(with_pairs(query_cleared(joined), pairs)),
        Err(e) => Err(e),
    }
}

/// Whether `r` is what the library makes of the URL parser's outcome
/// `expected`: the URL with that serialization, or the parser's error as
/// `UrlParseError`.
pub open spec fn url_outcome(r: Result<ParsedUrl, Error>, expected: Result<Seq<char>, ParseError>) -> bool {
    match expected {
        Ok(text) => r matches Ok(u) && u@ == text,
        Err(e) => r == Err::<ParsedUrl, Error>(Error::UrlParseError(e)),
    }
}

/// The URL parser's outcome in the library's terms: its error becomes
/// `UrlParseError`, carrying that very error.
pub fn url_result(r: Result<ParsedUrl, ParseError>) -> (out: Result<ParsedUrl, Error>)
    ensures
        match r {
            Ok(u) => out == Ok::<ParsedUrl, Error>(u),
            Err(e) => out == Err::<ParsedUrl, Error>(Error::UrlParseError(e)),
        },
{
    match r {
        Ok(u) => Ok(u),
        Err(e) => Err(Error::UrlParseError(e)),
    }
}

/// The path of a request to the server: `path` after a slash.
pub open spec fn client_path(path: Seq<char>) -> Seq<char> {
    seq!['/'] + path
}

/// Resolves `path` against the URL `base` and replaces the query by the
/// pairs of `params`, in their order. It fails exactly where resolving
/// fails.
pub fn build_url(base: &ParsedUrl, path: &str, params: Vec<(&str, String)>) -> (r: Result<ParsedUrl, Error>)
    ensures
        url_outcome(r, built_url(base@, path@, params_view(params@))),
{
    let ghost pairs = params_view(params@);
    let mut url = match url_result(join_url(base, path)) {
        Ok(u) => u,
        Err(e) => return Err(e),
    };
    let ghost joined = url@;
    clear_query(&mut url);
    let n = params.len();
    let mut i: usize = 0;
    while i < n
        invariant
            n == params@.len(),
            pairs == params_view(params@),
            0 <= i <= n,
            joined_url(base@, path@) == Ok::<Seq<char>, ParseError>(joined),
            with_pairs(query_cleared(joined), pairs.take(i as int)) == url@,
        decreases n - i,
    {
        let name: &str = params[i].0;
        let value: &str = params[i].1.as_str();
        assert(pairs.take(i + 1).drop_last() =~= pairs.take(i as int));
        append_pair(&mut url, name, value);
        i = i + 1;
    }
    assert(pairs.take(n as int) =~= pairs);
    Ok(url)
}

/// Every parameter goes into the built URL, one after the other: with no
/// parameters the URL is the resolved one with its query cleared, and one
/// more parameter at the end of the list appends exactly that pair to what
/// the list before it gives. Where resolving fails, the parameters do not
/// matter.
pub proof fn lemma_built_url_appends_each_pair(
    base: Seq<char>,
    path: Seq<char>,
    pairs: Seq<(Seq<char>, Seq<char>)>,
    pair: (Seq<char>, Seq<char>),
)
    ensures
        built_url(base, path, Seq::empty()) == match joined_url(base, path) {
            Ok(joined) => Ok::<Seq<char>, ParseError>(query_cleared(joined)),
            Err(e) => Err(e),
        },
        built_url(base, path, pairs.push(pair)) == match built_url(base, path, pairs) {
            Ok(u) => Ok::<Seq<char>, ParseError>(pair_appended(u, pair.0, pair.1)),
            Err(e) => Err(e),
        },
        joined_url(base, path) is Err ==> built_url(base, path, pairs) == built_url(base, path, Seq::empty()),
{
    assert(pairs.push(pair).drop_last() =~= pairs);
}

/// The path of every request starts at the server's root: a slash, then the
/// path as given, with nothing left out; for an empty path it is the slash
/// alone.
pub proof fn lemma_client_path_is_rooted(path: Seq<char>)
    ensures
        client_path(path).len() == path.len() + 1,
        client_path(path)[0] == '/',
        client_path(path).subrange(1, client_path(path).len() as int) == path,
        path.len() == 0 ==> client_path(path) == seq!['/'],
{
    assert(client_path(path).subrange(1, client_path(path).len() as int) =~= path);
    if path.len() == 0 {
        assert(client_path(path) =~= seq!['/']);
    }
}

/// A JSON document; it is carried, never inspected.
#[verifier::external_type_specification]
#[verifier::external_body]
pub struct ExJsonValue(JsonValue);

/// The HTTP method of a request.
#[derive(Debug, Clone, Copy, PartialEq, Eq, Structural)]
pub enum Method {
    Get,
    Post,
    Put,
    Delete,
}

/// The method that a request names: `"post"`, `"put"` and `"delete"` name
/// theirs, anything else is a GET.
pub open spec fn method_named(name: Seq<char>) -> Method {
    if name == "post"@ {
        Method::Post
    } else if name == "put"@ {
        Method::Put
    } else if name == "delete"@ {
        Method::Delete
    } else {
        Method::Get
    }
}

/// The name of a method, in lower case.
pub open spec fn method_text(m: Method) -> Seq<char> {
    match m {
        Method::Get => "get"@,
        Method::Post => "post"@,
        Method::Put => "put"@,
        Method::Delete => "delete"@,
    }
}

impl Method {
    /// The name of the method, as `method_from_name` reads it.
    pub fn name(&self) -> (r: &'static str)
        ensures
            r@ == method_text(*self),
            method_named(r@) == *self,
    {
        proof {
            reveal_strlit("get");
            reveal_strlit("post");
            reveal_strlit("put");
            reveal_strlit("delete");
            assert("get"@[0] != "put"@[0]);
            assert("get"@.len() != "post"@.len());
            assert("get"@.len() != "delete"@.len());
            assert("put"@.len() != "post"@.len());
            assert("delete"@.len() != "post"@.len());
            assert("delete"@.len() != "put"@.len());
        }
        match self {
            Method::Get => "get",
            Method::Post => "post",
            Method::Put => "put",
            Method::Delete => "delete",
        }
    }
}

/// Whether two strings hold the same characters.
fn str_eq(a: &str, b: &str) -> (r: bool)
    ensures
        r == (a@ == b@),
{
    let n = a.unicode_len();
    if n != b.unicode_len() {
        return false;
    }
    let mut i: usize = 0;
    while i < n
        invariant
            n == a@.len(),
            n == b@.len(),
            0 <= i <= n,
            forall|j: int| 0 <= j < i ==> a@[j] == b@[j],
        decreases n - i,
    {
        if a.get_char(i) != b.get_char(i) {
            return false;
        }
        i = i + 1;
    }
    assert(a@ =~= b@);
    true
}

/// The HTTP method for the name that a caller gives.
pub fn method_from_name(name: &str) -> (m: Method)
    ensures
        m == method_named(name@),
{
    if str_eq(name, "post") {
        Method::Post
    } else if str_eq(name, "put") {
        Method::Put
    } else if str_eq(name, "delete") {
        Method::Delete
    } else {
        Method::Get
    }
}

/// The timeout of the HTTP client in seconds: a timeout of 0 means that the
/// client waits without limit.
pub fn client_timeout(timeout: u64) -> (r: Option<u64>)
    ensures
        timeout == 0 ==> r is None,
        timeout != 0 ==> r == Some(timeout),
{
    if timeout == 0 {
        None
    } else {
        Some(timeout)
    }
}

/// The outcome of a request that the server answered with a success
/// status, from its body read as a JSON document: the document, or
/// `BackendError` where the body is no JSON.
pub fn document_result(body: Result<JsonValue, HttpError>) -> (r: Result<JsonValue, Error>)
    ensures
        match body {
            Ok(js) => r == Ok::<JsonValue, Error>(js),
            Err(_) => r matches Err(Error::BackendError),
        },
{
    match body {
        Ok(js) => Ok(js),
        Err(_) => Err(Error::BackendError),
    }
}

/// The outcome of a request that the server refused, from its body read as
/// a JSON string: the server's message as `XMZError`, or the error of
/// reading it where the body is no JSON string.
pub fn refusal_result(body: Result<String, HttpError>) -> (r: Result<JsonValue, Error>)
    ensures
        match body {
            Ok(message) => r == Err::<JsonValue, Error>(Error::XMZError(message)),
            Err(e) => r == Err::<JsonValue, Error>(Error::ReqwestError(e)),
        },
{
    match body {
        Ok(message) => Err(Error::XMZError(message)),
        Err(err) => Err(Error::ReqwestError(err)),
    }
}

} // verus!

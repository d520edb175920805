//! Single-shot identity fetcher: builds the identity-resource URL from a
//! caller-supplied server endpoint and classifies the outcome of the one
//! HTTP GET that a caller performs against it.

use vstd::prelude::*;
use vstd::string::StrSliceExecFns;
use vstd::string::StringExecFns;

verus! {

/// A classified failure of one identity fetch.
#[derive(Debug, Clone, PartialEq, Eq)]
pub enum FetchError {
    /// Connection, timeout or other transport-level failure, with the
    /// transport's own message.
    TransportFailure(String),
    /// The server was reached but answered with a non-success HTTP status.
    UpstreamHTTPStatus(u16),
}

/// The fixed server-side path that names the identity resource.
pub open spec fn identity_path() -> Seq<char> {
    "/:/identity"@
}

/// The server endpoint with a single trailing slash removed, if one is there.
pub open spec fn trimmed_base(server_url: Seq<char>) -> Seq<char> {
    if server_url.len() > 0 && server_url.last() == '/' {
        server_url.drop_last()
    } else {
        server_url
    }
}

/// The full identity-resource URL for a server endpoint.
pub open spec fn identity_url_spec(server_url: Seq<char>) -> Seq<char> {
    trimmed_base(server_url) + identity_path()
}

/// Builds the URL the identity request is sent to: the endpoint, trimmed of
/// a single trailing slash, with the identity-resource path appended.
pub fn identity_url(server_url: &str) -> (r: String)
    ensures
        r@ == identity_url_spec(server_url@),
{
    let n = server_url.unicode_len();
    let base: &str = if n > 0 && server_url.get_char(n - 1) == '/' {
        let trimmed = server_url.substring_char(0, n - 1);
        proof {
            assert(trimmed@ =~= trimmed_base(server_url@));
        }
        trimmed
    } else {
        server_url
    };
    let mut url = String::from_str(base);
    url.append("/:/identity");
    url
}

/// Whether an HTTP status code indicates success.
pub open spec fn is_success_status(status: u16) -> bool {
    200 <= status < 300
}

/// Classifies a received response: a success status hands the body back
/// unmodified; any other status discards the body and reports the code.
pub fn classify_response(status: u16, body: String) -> (r: Result<String, FetchError>)
    ensures
        is_success_status(status) ==> r == Ok::<String, FetchError>(body),
        !is_success_status(status) ==> r == Err::<String, FetchError>(FetchError::UpstreamHTTPStatus(status)),
{
    if 200 <= status && status < 300 {
        Ok(body)
    } else {
        Err(FetchError::UpstreamHTTPStatus(status))
    }
}

/// Maps a completed transport attempt to the fetch result. A transport-level
/// failure message becomes `TransportFailure` as it stands; a response that
/// arrived is classified by its status, the body kept verbatim on success
/// and discarded otherwise.
pub fn fetch_outcome(attempt: Result<(u16, String), String>) -> (r: Result<String, FetchError>)
    ensures
        match attempt {
            Ok((status, body)) => {
                &&& is_success_status(status) ==> r == Ok::<String, FetchError>(body)
                &&& !is_success_status(status) ==> r == Err::<String, FetchError>(
                    FetchError::UpstreamHTTPStatus(status),
                )
            },
            Err(message) => r == Err::<String, FetchError>(FetchError::TransportFailure(message)),
        },
{
    match attempt {
        Ok((status, body)) => classify_response(status, body),
        Err(message) => Err(FetchError::TransportFailure(message)),
    }
}

} // verus!

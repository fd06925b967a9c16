//! The four-variant fetch lifecycle, its error, and the payload it carries.
use vstd::prelude::*;
use crate::decode::{CacheEntry, cache_list_of, decode_cache_list};

verus! {

/// The possible states a fetch request can be in.
pub enum FetchState<T> {
    NotFetching,
    Fetching,
    Success(T),
    Failed(FetchError),
}

/// Where a failed fetch went wrong.
#[derive(Clone, Copy, Debug, PartialEq, Eq, Structural)]
pub enum ErrorKind {
    /// The request could not be made or its body could not be read.
    Transport,
    /// The body is not an array of strings that each encode an entry.
    Decode,
}

/// Something wrong has occurred while fetching an external resource.
#[derive(Clone, Debug)]
pub struct FetchError {
    pub kind: ErrorKind,
    pub message: String,
}

impl FetchError {
    /// An error of the transport, carrying its description.
    pub fn transport(message: String) -> (r: FetchError)
        ensures
            r.kind == ErrorKind::Transport,
            r.message@ == message@,
    {
        FetchError { kind: ErrorKind::Transport, message }
    }

    /// A copy of the text that describes the error.
    pub fn describe(&self) -> (r: String)
        ensures
            r@ == self.message@,
    {
        self.message.clone()
    }
}

/// The entries of a successful fetch, in the order the server sent them.
#[derive(Clone, Debug)]
pub struct DashboardData {
    pub cache_list: Vec<CacheEntry>,
}

/// Decodes a response body into dashboard data; fails as a whole when the
/// body or any one of its elements does not decode.
pub fn decode_dashboard(body: &str) -> (r: Result<DashboardData, FetchError>)
    ensures
        match r {
            Ok(d) => cache_list_of(body@) == Some(d.cache_list@),
            Err(e) => cache_list_of(body@) is None && e.kind == ErrorKind::Decode,
        },
{
    match decode_cache_list(body) {
        Some(cache_list) => Ok(DashboardData { cache_list }),
        None => Err(
            FetchError {
                kind: ErrorKind::Decode,
                message: String::from_str("the body is not an array of cache entry texts"),
            },
        ),
    }
}

/// What a response hands on to decoding: its body when the status is 200,
/// a transport error for any other status.
pub fn response_outcome(status: u16, body: String) -> (r: Result<String, FetchError>)
    ensures
        status == 200 ==> r == Ok::<String, FetchError>(body),
        status != 200 ==> r is Err && r->Err_0.kind == ErrorKind::Transport,
{
    if status == 200 {
        Ok(body)
    } else {
        Err(FetchError::transport(String::from_str("the response status is not 200")))
    }
}

/// The terminal state that a finished fetch moves to: `outcome` is the body
/// that was read, or the transport's error.
pub fn completion_state(outcome: Result<String, FetchError>) -> (r: FetchState<DashboardData>)
    ensures
        match outcome {
            Err(e) => r == FetchState::<DashboardData>::Failed(e),
            Ok(body) => match cache_list_of(body@) {
                Some(l) => r is Success && r->Success_0.cache_list@ == l,
                None => r is Failed && r->Failed_0.kind == ErrorKind::Decode,
            },
        },
{
    match outcome {
        Err(e) => FetchState::Failed(e),
        Ok(body) => match decode_dashboard(body.as_str()) {
            Ok(d) => FetchState::Success(d),
            Err(e) => FetchState::Failed(e),
        },
    }
}

} // verus!

//! The boundary to the REST transport: request URLs, the mapping from HTTP
//! status codes to typed failures, and the symbol list of the active
//! instruments.

use vstd::prelude::*;
use vstd::string::*;
use crate::json::{parse, parsed_value, Json};
use crate::models::OpenContracts;

verus! {

/// The structured body of a refused request.
#[derive(Debug, Clone, PartialEq)]
pub struct ContentError {
    pub code: i16,
    pub msg: String,
}

/// Why a REST call failed.
#[derive(Debug, Clone, PartialEq)]
pub enum TransportError {
    /// HTTP 401.
    Unauthorized,
    /// HTTP 500.
    ServerError,
    /// HTTP 503.
    Unavailable,
    /// HTTP 400, with the exchange's own code and message.
    Content(ContentError),
    /// Any other status but 200.
    UnexpectedStatus(u16),
    /// The body could not be decoded.
    MalformedBody,
    /// The request could not be sent or the answer not be read.
    Network,
}

/// The URL of a request: host, then endpoint, then the query after a `?`
/// where there is a non-empty one.
pub open spec fn request_url_text(host: Seq<char>, endpoint: Seq<char>, query: Option<Seq<char>>) -> Seq<char> {
    match query {
        Some(q) if q.len() > 0 => host + endpoint + "?"@ + q,
        _ => host + endpoint,
    }
}

/// Builds the URL of a request.
pub fn request_url(host: &str, endpoint: &str, query: Option<&str>) -> (url: String)
    ensures
        url@ == request_url_text(
            host@,
            endpoint@,
            match query {
                Some(q) => Some(q@),
                None => None,
            },
        ),
{
    let mut url = host.to_owned();
    url.append(endpoint);
    if let Some(q) = query {
        if !q.is_empty() {
            url.append("?");
            url.append(q);
        }
    }
    url
}

/// The structured error that a decoded body spells out: an integer `code`
/// of 16 bits and a string `msg`.
pub open spec fn content_error_of(value: Json) -> Option<ContentError> {
    match (value.signed_member("code"@), value.text_member("msg"@)) {
        (Some(code), Some(msg)) if i16::MIN <= code <= i16::MAX => Some(
            ContentError { code: code as i16, msg },
        ),
        _ => None,
    }
}

/// Reads a structured error off a decoded body.
pub fn read_content_error(value: &Json) -> (r: Option<ContentError>)
    ensures
        r == content_error_of(*value),
{
    match (value.get_signed("code"), value.get_text("msg")) {
        (Some(code), Some(msg)) => {
            if -32768 <= code && code <= 32767 {
                Some(ContentError { code: code as i16, msg })
            } else {
                None
            }
        },
        _ => None,
    }
}

/// The failure that a status code and the decoded body stand for; `None`
/// for status 200, whose body is the answer. Only status 400 reads the body.
pub open spec fn status_failure(status: u16, body: Option<Json>) -> Option<TransportError> {
    if status == 200 {
        None
    } else if status == 500 {
        Some(TransportError::ServerError)
    } else if status == 503 {
        Some(TransportError::Unavailable)
    } else if status == 401 {
        Some(TransportError::Unauthorized)
    } else if status == 400 {
        match body {
            Some(value) => match content_error_of(value) {
                Some(error) => Some(TransportError::Content(error)),
                None => Some(TransportError::MalformedBody),
            },
            None => Some(TransportError::MalformedBody),
        }
    } else {
        Some(TransportError::UnexpectedStatus(status))
    }
}

/// Maps a status code and the decoded body of the answer to the failure
/// they stand for.
pub fn judge_status(status: u16, body: &Option<Json>) -> (r: Result<(), TransportError>)
    ensures
        match r {
            Ok(_) => status_failure(status, *body) is None,
            Err(error) => status_failure(status, *body) == Some(error),
        },
{
    if status == 200 {
        Ok(())
    } else if status == 500 {
        Err(TransportError::ServerError)
    } else if status == 503 {
        Err(TransportError::Unavailable)
    } else if status == 401 {
        Err(TransportError::Unauthorized)
    } else if status == 400 {
        match body {
            Some(value) => match read_content_error(value) {
                Some(error) => Err(TransportError::Content(error)),
                None => Err(TransportError::MalformedBody),
            },
            None => Err(TransportError::MalformedBody),
        }
    } else {
        Err(TransportError::UnexpectedStatus(status))
    }
}

/// Judges the answer to a request by its status code and the text of its
/// body.
pub fn check_response(status: u16, body: &str) -> (r: Result<(), TransportError>)
    ensures
        match r {
            Ok(_) => status_failure(status, parsed_value(body@)) is None,
            Err(error) => status_failure(status, parsed_value(body@)) == Some(error),
        },
{
    let decoded = parse(body);
    judge_status(status, &decoded)
}

/// The symbols of the listed instruments.
pub open spec fn symbols_of(contracts: OpenContracts) -> Seq<String> {
    Seq::new(contracts.data@.len(), |i: int| contracts.data@[i].symbol)
}

/// Extracts the symbol of every listed instrument, in the order of the
/// list and with repetitions kept.
pub fn available_symbols(contracts: &OpenContracts) -> (symbols: Vec<String>)
    ensures
        symbols@ == symbols_of(*contracts),
{
    let mut symbols: Vec<String> = Vec::new();
    let mut i: usize = 0;
    while i < contracts.data.len()
        invariant
            i <= contracts.data.len(),
            symbols@.len() == i,
            forall|j: int| 0 <= j < i ==> #[trigger] symbols@[j] == contracts.data@[j].symbol,
        decreases contracts.data.len() - i,
    {
        symbols.push(contracts.data[i].symbol.clone());
        i += 1;
    }
    assert(symbols@ =~= symbols_of(*contracts));
    symbols
}

} // verus!

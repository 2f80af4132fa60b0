//! Signed requests: what is sent to the exchange with a REST call or with
//! the handshake of a stream.
//!
//! A request carries the API key, the signature and the timestamp that the
//! signature was computed with. The timestamp is taken once, by the caller,
//! and the same value stands in the signature and in the header.

use vstd::prelude::*;
use vstd::utf8::encode_utf8;
use crate::error::RequestError;
use crate::signer::{api_sign, signature_of, text_of};
use crate::text::{decimal_text, same_text, u128_to_text};

verus! {

/// The verbs that a request can have.
#[derive(Clone, Copy, Debug, PartialEq, Eq, Structural)]
pub enum Verb {
    Get,
    Post,
    Put,
    Delete,
}

/// The verb that a text names, if it names one. The names are in upper case.
pub open spec fn verb_of(text: Seq<char>) -> Option<Verb> {
    if text == "GET"@ {
        Some(Verb::Get)
    } else if text == "POST"@ {
        Some(Verb::Post)
    } else if text == "PUT"@ {
        Some(Verb::Put)
    } else if text == "DELETE"@ {
        Some(Verb::Delete)
    } else {
        None
    }
}

/// Reads a verb from its name.
pub fn parse_verb(verb: &str) -> (r: Option<Verb>)
    ensures
        r == verb_of(verb@),
{
    if same_text(verb, "GET") {
        Some(Verb::Get)
    } else if same_text(verb, "POST") {
        Some(Verb::Post)
    } else if same_text(verb, "PUT") {
        Some(Verb::Put)
    } else if same_text(verb, "DELETE") {
        Some(Verb::Delete)
    } else {
        None
    }
}

/// A request with what authenticates it.
#[derive(Debug, PartialEq, Eq)]
pub struct SignedRequest {
    /// The verb that the request is sent with.
    pub verb: Verb,
    /// Where the request is sent.
    pub url: String,
    /// The value of the header `X-VALR-API-KEY`.
    pub api_key: String,
    /// The value of the header `X-VALR-SIGNATURE`.
    pub signature: String,
    /// The value of the header `X-VALR-TIMESTAMP`: milliseconds since the
    /// Unix epoch, in decimal.
    pub timestamp: String,
    /// The body that is sent, if any.
    pub body: Option<String>,
}

/// Whether `request` is authenticated by `api_key` and by the signature of
/// `(timestamp_ms, verb, path, body)` under `api_secret`, with that same
/// timestamp in its header.
pub open spec fn carries_signature(
    request: SignedRequest,
    api_key: Seq<char>,
    api_secret: Seq<char>,
    path: Seq<char>,
    verb: Seq<char>,
    body: Option<Seq<char>>,
    timestamp_ms: u128,
) -> bool {
    &&& request.api_key@ == api_key
    &&& request.timestamp@ == decimal_text(timestamp_ms as nat)
    &&& request.signature@ == signature_of(
        encode_utf8(api_secret),
        decimal_text(timestamp_ms as nat),
        verb,
        path,
        body,
    )
}

/// A copy of a text that may be absent.
fn copy_of(text: &Option<String>) -> (r: Option<String>)
    ensures
        r == *text,
{
    match text {
        Some(text) => Some(text.clone()),
        None => None,
    }
}

/// Builds a signed REST request.
///
/// The verb must name one of `GET`, `POST`, `PUT` and `DELETE`; any other
/// is refused as `UnsupportedVerb`. The signature covers the body if there
/// is one. A `GET` request is sent without a body; every other request is
/// sent with the body that was given.
pub fn create_http_request(
    url: String,
    api_key: &String,
    api_secret: &String,
    path: String,
    verb: &String,
    body: Option<String>,
    timestamp_ms: u128,
) -> (r: Result<SignedRequest, RequestError>)
    ensures
        match r {
            Ok(request) => {
                &&& verb_of(verb@) == Some(request.verb)
                &&& request.url == url
                &&& carries_signature(
                    request,
                    api_key@,
                    api_secret@,
                    path@,
                    verb@,
                    text_of(body),
                    timestamp_ms,
                )
                &&& request.body == (if request.verb == Verb::Get {
                    None
                } else {
                    body
                })
            },
            Err(e) => verb_of(verb@) is None && e == RequestError::UnsupportedVerb,
        },
{
    let method = match parse_verb(verb.as_str()) {
        Some(method) => method,
        None => {
            return Err(RequestError::UnsupportedVerb);
        },
    };
    let timestamp = u128_to_text(timestamp_ms);
    let signature = match api_sign(
        api_secret.as_str().as_bytes(),
        timestamp.clone(),
        verb,
        path,
        copy_of(&body),
    ) {
        Ok(signature) => signature,
        Err(e) => {
            return Err(RequestError::Signing(e));
        },
    };
    let sent_body = match method {
        Verb::Get => None,
        _ => body,
    };
    Ok(
        SignedRequest {
            verb: method,
            url,
            api_key: api_key.clone(),
            signature,
            timestamp,
            body: sent_body,
        },
    )
}

/// Builds the signed handshake of a stream.
///
/// The handshake is a `GET` without a body, whatever verb and body are
/// signed. The verb must name one of `GET`, `POST`, `PUT` and `DELETE`; any
/// other is refused as `UnsupportedVerb`.
pub fn create_ws_request(
    url: String,
    api_key: &String,
    api_secret: &String,
    path: String,
    verb: String,
    body: Option<String>,
    timestamp_ms: u128,
) -> (r: Result<SignedRequest, RequestError>)
    ensures
        match r {
            Ok(request) => {
                &&& verb_of(verb@) is Some
                &&& request.verb == Verb::Get
                &&& request.url == url
                &&& carries_signature(
                    request,
                    api_key@,
                    api_secret@,
                    path@,
                    verb@,
                    text_of(body),
                    timestamp_ms,
                )
                &&& request.body is None
            },
            Err(e) => verb_of(verb@) is None && e == RequestError::UnsupportedVerb,
        },
{
    if parse_verb(verb.as_str()).is_none() {
        return Err(RequestError::UnsupportedVerb);
    }
    let timestamp = u128_to_text(timestamp_ms);
    let signature = match api_sign(
        api_secret.as_str().as_bytes(),
        timestamp.clone(),
        &verb,
        path,
        body,
    ) {
        Ok(signature) => signature,
        Err(e) => {
            return Err(RequestError::Signing(e));
        },
    };
    Ok(
        SignedRequest {
            verb: Verb::Get,
            url,
            api_key: api_key.clone(),
            signature,
            timestamp,
            body: None,
        },
    )
}

impl SignedRequest {
    /// The three headers that authenticate the request, as pairs of name
    /// and value: the API key, the signature, the timestamp.
    pub fn headers(&self) -> (r: Vec<(String, String)>)
        ensures
            r@.len() == 3,
            r@[0].0@ == "X-VALR-API-KEY"@,
            r@[0].1 == self.api_key,
            r@[1].0@ == "X-VALR-SIGNATURE"@,
            r@[1].1 == self.signature,
            r@[2].0@ == "X-VALR-TIMESTAMP"@,
            r@[2].1 == self.timestamp,
    {
        let mut headers: Vec<(String, String)> = Vec::new();
        headers.push(("X-VALR-API-KEY".to_owned(), self.api_key.clone()));
        headers.push(("X-VALR-SIGNATURE".to_owned(), self.signature.clone()));
        headers.push(("X-VALR-TIMESTAMP".to_owned(), self.timestamp.clone()));
        headers
    }
}

/// The address of the price buckets of `currency_pair` between two times,
/// in periods of five minutes: the history that is fetched once at the
/// start.
pub fn historical_buckets_url(currency_pair: &str, start_time: &str, end_time: &str) -> (url: String)
    ensures
        url@ == "https://api.valr.com/v1/public/"@ + currency_pair@
            + "/markprice/buckets?startTime="@ + start_time@ + "&endTime="@ + end_time@
            + "&periodSeconds=300"@,
{
    let mut url = "https://api.valr.com/v1/public/".to_owned();
    url.append(currency_pair);
    url.append("/markprice/buckets?startTime=");
    url.append(start_time);
    url.append("&endTime=");
    url.append(end_time);
    url.append("&periodSeconds=300");
    url
}

} // verus!

//! The connector: the API key, the endpoint URLs with their query, the
//! request headers, and the handling of a reply's status and body. Sending
//! the request is left to the caller's HTTP transport.
use vstd::prelude::*;

use crate::autocomplete::{decodes_suggestions, FinanceapiAutocomplete};
use crate::error::{FinanceapiError, TransportFailure};
use crate::json::JsonValue;
use crate::quote::{decodes_quote, FinanceapiQuote};

verus! {

/// The quote endpoint, with its fixed locale.
pub const QUOTE_URL: &'static str = "https://yfapi.net/v6/finance/quote?region=US&lang=en";

/// The autocomplete endpoint, with the same locale.
pub const AUTOCOMPLETE_URL: &'static str = "https://yfapi.net/v6/finance/autocomplete?region=US&lang=en";

/// The text of the URL `base` with the pair `key=value` appended to its query.
pub uninterp spec fn url_with_pair(base: Seq<char>, key: Seq<char>, value: Seq<char>) -> Seq<char>;

/// Relies on `url::Url::parse_with_params`: it parses `base` and appends
/// `key=value`, form-encoded, to the query; the text of the URL depends on
/// the three arguments alone. Both endpoint URLs are absolute `https` URLs
/// that parse, and appending a query pair to a parsed URL cannot fail.
#[verifier::external_body]
fn parse_with_param(base: &str, key: &str, value: &str) -> (r: Result<String, url::ParseError>)
    ensures
        r is Ok ==> r->Ok_0@ == url_with_pair(base@, key@, value@),
        base@ == QUOTE_URL@ || base@ == AUTOCOMPLETE_URL@ ==> r is Ok,
{
    url::Url::parse_with_params(base, &[(key, value)]).map(String::from)
}

/// Builds `base` with the query pair `key=value`, or the URL error.
pub fn endpoint_url(base: &str, key: &str, value: &str) -> (r: Result<String, FinanceapiError>)
    ensures
        r is Ok ==> r->Ok_0@ == url_with_pair(base@, key@, value@),
        r is Err ==> r->Err_0 is UrlParseError,
        base@ == QUOTE_URL@ || base@ == AUTOCOMPLETE_URL@ ==> r is Ok,
{
    match parse_with_param(base, key, value) {
        Ok(u) => Ok(u),
        Err(e) => Err(FinanceapiError::UrlParseError(e)),
    }
}

/// Whether an HTTP status is a success (2xx).
pub open spec fn is_success(status: u16) -> bool {
    200 <= status < 300
}

/// Accepts a success status; any other status is a transport error that
/// carries it.
pub fn check_status(status: u16) -> (r: Result<(), FinanceapiError>)
    ensures
        is_success(status) <==> r is Ok,
        !is_success(status) ==> r is Err && r->Err_0 == FinanceapiError::RequestError(TransportFailure::Status(status)),
{
    if 200 <= status && status < 300 {
        Ok(())
    } else {
        Err(FinanceapiError::RequestError(TransportFailure::Status(status)))
    }
}

/// What a reply of the quote endpoint yields: a transport error for a
/// status that is not a success or a body that is not JSON, else what the
/// body decodes to.
pub open spec fn quote_reply_yields(
    status: u16,
    body: Option<JsonValue>,
    r: Result<FinanceapiQuote, FinanceapiError>,
) -> bool {
    if !is_success(status) {
        r is Err && r->Err_0 == FinanceapiError::RequestError(TransportFailure::Status(status))
    } else {
        match body {
            None => r is Err && r->Err_0 == FinanceapiError::RequestError(TransportFailure::Body),
            Some(json) => decodes_quote(json, r),
        }
    }
}

/// What a reply of the autocomplete endpoint yields, in the same way.
pub open spec fn autocomplete_reply_yields(
    status: u16,
    body: Option<JsonValue>,
    r: Result<Vec<FinanceapiAutocomplete>, FinanceapiError>,
) -> bool {
    if !is_success(status) {
        r is Err && r->Err_0 == FinanceapiError::RequestError(TransportFailure::Status(status))
    } else {
        match body {
            None => r is Err && r->Err_0 == FinanceapiError::RequestError(TransportFailure::Body),
            Some(json) => decodes_suggestions(json, r),
        }
    }
}

/// A reply whose status is not a success (a 403 for a rejected key, say)
/// yields a transport error that carries the status, whatever its body
/// holds, on either endpoint; the body is never decoded.
pub proof fn lemma_failed_status_is_transport_error(
    status: u16,
    body: Option<JsonValue>,
    q: Result<FinanceapiQuote, FinanceapiError>,
    s: Result<Vec<FinanceapiAutocomplete>, FinanceapiError>,
)
    requires
        !is_success(status),
        quote_reply_yields(status, body, q),
        autocomplete_reply_yields(status, body, s),
    ensures
        q is Err && q->Err_0 == FinanceapiError::RequestError(TransportFailure::Status(status)),
        s is Err && s->Err_0 == FinanceapiError::RequestError(TransportFailure::Status(status)),
{
}

/// Holds the API key that authenticates every request.
#[derive(Debug, Default)]
pub struct FinanceapiConnector {
    api_key: String,
}

impl FinanceapiConnector {
    /// The API key.
    pub closed spec fn key(&self) -> Seq<char> {
        self.api_key@
    }

    /// A connector that authenticates with `key`. No request is made.
    pub fn new(key: String) -> (r: Self)
        ensures
            r.key() == key@,
    {
        FinanceapiConnector { api_key: key }
    }

    /// The headers of every request: JSON is accepted, and the key is sent
    /// as `X-API-KEY`.
    pub fn headers(&self) -> (r: Vec<(String, String)>)
        ensures
            r@.len() == 2,
            r@[0].0@ == "accept"@,
            r@[0].1@ == "application/json"@,
            r@[1].0@ == "X-API-KEY"@,
            r@[1].1@ == self.key(),
    {
        let mut h: Vec<(String, String)> = Vec::new();
        h.push(("accept".to_owned(), "application/json".to_owned()));
        h.push(("X-API-KEY".to_owned(), self.api_key.clone()));
        h
    }

    /// The URL that asks the quote endpoint for `symbol`.
    pub fn quote_url(&self, symbol: &str) -> (r: Result<String, FinanceapiError>)
        ensures
            r is Ok,
            r->Ok_0@ == url_with_pair(QUOTE_URL@, "symbols"@, symbol@),
    {
        endpoint_url(QUOTE_URL, "symbols", symbol)
    }

    /// The URL that asks the autocomplete endpoint for `query`.
    pub fn autocomplete_url(&self, query: &str) -> (r: Result<String, FinanceapiError>)
        ensures
            r is Ok,
            r->Ok_0@ == url_with_pair(AUTOCOMPLETE_URL@, "query"@, query@),
    {
        endpoint_url(AUTOCOMPLETE_URL, "query", query)
    }

    /// Turns the quote endpoint's reply into a quote: the status is checked
    /// before the body. `body` is `None` where the body is not JSON.
    pub fn quote_reply(&self, status: u16, body: Option<JsonValue>) -> (r: Result<
        FinanceapiQuote,
        FinanceapiError,
    >)
        ensures
            quote_reply_yields(status, body, r),
    {
        match check_status(status) {
            Ok(()) => {},
            Err(e) => return Err(e),
        }
        match body {
            Some(json) => FinanceapiQuote::from_json(json),
            None => Err(FinanceapiError::RequestError(TransportFailure::Body)),
        }
    }

    /// Turns the autocomplete endpoint's reply into suggestions, in the same
    /// way.
    pub fn autocomplete_reply(&self, status: u16, body: Option<JsonValue>) -> (r: Result<
        Vec<FinanceapiAutocomplete>,
        FinanceapiError,
    >)
        ensures
            autocomplete_reply_yields(status, body, r),
    {
        match check_status(status) {
            Ok(()) => {},
            Err(e) => return Err(e),
        }
        match body {
            Some(json) => FinanceapiAutocomplete::from_json(json),
            None => Err(FinanceapiError::RequestError(TransportFailure::Body)),
        }
    }
}

} // verus!

//! The failures that a request or a decoding can end in.
use vstd::prelude::*;

verus! {

/// The `url` crate's error for a URL that cannot be parsed.
#[verifier::external_type_specification]
#[verifier::external_body]
pub struct ExParseError(url::ParseError);

/// Why the transport gave no usable reply.
#[derive(Debug, Clone, Copy, PartialEq, Eq, Structural)]
pub enum TransportFailure {
    /// The request could not be sent or no reply came (network, TLS, timeout).
    Network,
    /// The reply carried this status, which is not a success (2xx).
    Status(u16),
    /// The body of a successful reply is not a JSON document.
    Body,
}

/// Every way in which a call of the client can fail.
#[derive(Debug)]
pub enum FinanceapiError {
    /// The transport failed, or the reply's status is not a success.
    RequestError(TransportFailure),
    /// The endpoint URL with its query could not be built.
    UrlParseError(url::ParseError),
    /// The document lacks the endpoint's envelope member.
    JsonParseError,
    /// The envelope or a record in it does not have the expected shape.
    JsonSerdeError,
    /// The provider reported this error in the envelope.
    JsonResponseError(String),
    /// The envelope holds no record.
    SymbolNotFoundError,
    /// A state that correct decoding never reaches.
    UnexpectedError,
}

} // verus!

//! A typed client for a financial-data REST API: URL construction for its
//! quote and autocomplete endpoints, the handling of the HTTP status, and the
//! decoding of each endpoint's JSON envelope into typed records.
pub mod autocomplete;
pub mod connector;
pub mod error;
pub mod json;
pub mod quote;

pub use autocomplete::FinanceapiAutocomplete;
pub use connector::FinanceapiConnector;
pub use error::{FinanceapiError, TransportFailure};
pub use json::{JsonNumber, JsonValue};
pub use quote::FinanceapiQuote;

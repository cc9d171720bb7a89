//! Core of a client library for the currencyapi.com REST service.
//!
//! The library builds the request URL for each supported operation (status,
//! currency list, latest rates, historical rates, conversion, date-range
//! rates) and decodes the JSON response body into a generic key/value
//! structure.  Issuing the HTTP request itself is left to the surrounding
//! application; the URL assembly and the response shape rules are verified,
//! and each call into an outside crate is stated by a contract that names
//! its result.

pub mod api;
pub mod error;
pub mod request;
pub mod response;

pub use api::Currencyapi;
pub use api::Settings;
pub use error::CurrencyapiError;
pub use request::RequestUrl;
pub use request::construct_base_url;
pub use response::DetailsResponse;
pub use response::decode_response;

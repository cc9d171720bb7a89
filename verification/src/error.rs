//! The errors the library reports.

use vstd::prelude::*;

verus! {

/// Everything that can go wrong while building a request or decoding a
/// response.  Every failure is returned as a value; nothing is retried or
/// suppressed.
#[derive(Debug)]
pub enum CurrencyapiError {
    /// Building the HTTP client failed (for example, an invalid header
    /// value); carries a description of the failure.
    ClientConstruction { message: String },
    /// The fixed base URL could not be assembled.  Defensive: the base is a
    /// constant, so this is not expected in normal operation.
    UrlConstruction,
    /// The network request failed (connection, TLS, timeout); carries a
    /// description of the transport failure.
    RequestError { message: String },
    /// The response body was not valid JSON of the expected shape; carries
    /// the raw body to aid diagnosis.
    ResponseParsingError { body: String },
}

} // verus!

//! The failures the middleware reports. None of them reaches the host: each
//! is logged and the transaction goes on.

use vstd::prelude::*;
use crate::text::concat;

verus! {

#[verifier::external_type_specification]
#[verifier::external_body]
pub struct ExRegexError(regex::Error);

/// Relies on the `Display` impl of `regex::Error`: a readable description.
#[verifier::external_body]
fn regex_error_text(e: &regex::Error) -> String {
    e.to_string()
}

/// A failure inside the middleware, with a readable detail.
pub enum TreblleError {
    Io(String),
    Http(String),
    Json(String),
    Regex(regex::Error),
    Tls(String),
    Certificate(String),
    InvalidUrl(String),
    InvalidHostname(String),
    Tcp(String),
    Timeout,
    Config(String),
    HostFunction(String),
    LockError(String),
}

/// The readable form of every failure whose detail is plain text.
pub open spec fn message_of(e: TreblleError) -> Seq<char> {
    match e {
        TreblleError::Io(d) => "I/O error: "@ + d@,
        TreblleError::Http(d) => "HTTP error: "@ + d@,
        TreblleError::Json(d) => "JSON error: "@ + d@,
        TreblleError::Regex(_) => "Regex error"@,
        TreblleError::Tls(d) => "TLS error: "@ + d@,
        TreblleError::Certificate(d) => "Certificate error: "@ + d@,
        TreblleError::InvalidUrl(d) => "Invalid URL: "@ + d@,
        TreblleError::InvalidHostname(d) => "Invalid hostname: "@ + d@,
        TreblleError::Tcp(d) => "TCP error: "@ + d@,
        TreblleError::Timeout => "Operation timed out"@,
        TreblleError::Config(d) => "Config error: "@ + d@,
        TreblleError::HostFunction(d) => "Host function error: "@ + d@,
        TreblleError::LockError(d) => "Lock error: "@ + d@,
    }
}

impl TreblleError {
    /// The readable form of this failure, as it goes to the log.
    pub fn message(&self) -> (r: String)
        ensures
            !(*self is Regex) ==> r@ == message_of(*self),
    {
        match self {
            TreblleError::Io(d) => concat("I/O error: ", d.as_str()),
            TreblleError::Http(d) => concat("HTTP error: ", d.as_str()),
            TreblleError::Json(d) => concat("JSON error: ", d.as_str()),
            TreblleError::Regex(e) => {
                let d = regex_error_text(e);
                concat("Regex error: ", d.as_str())
            },
            TreblleError::Tls(d) => concat("TLS error: ", d.as_str()),
            TreblleError::Certificate(d) => concat("Certificate error: ", d.as_str()),
            TreblleError::InvalidUrl(d) => concat("Invalid URL: ", d.as_str()),
            TreblleError::InvalidHostname(d) => concat("Invalid hostname: ", d.as_str()),
            TreblleError::Tcp(d) => concat("TCP error: ", d.as_str()),
            TreblleError::Timeout => String::from_str("Operation timed out"),
            TreblleError::Config(d) => concat("Config error: ", d.as_str()),
            TreblleError::HostFunction(d) => concat("Host function error: ", d.as_str()),
            TreblleError::LockError(d) => concat("Lock error: ", d.as_str()),
        }
    }
}

} // verus!

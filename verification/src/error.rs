//! The failure taxonomy of the request side: one closed set of kinds
//! unifying I/O, transport, URL-parse, body-decode and concurrency-borrow
//! failures.
//!
//! A rejection by the remote service is not in this set: it decodes as the
//! failure arm of [`crate::TwilioJson`] and reaches the caller on the
//! success channel.

use vstd::prelude::*;

verus! {

/// The URI parse error of the `http` crate, carried by [`TwilioErr::UrlParse`].
#[verifier::external_type_specification]
#[verifier::external_body]
pub struct ExInvalidUri(http::uri::InvalidUri);

/// The request-building error of the `http` crate, carried by [`TwilioErr::HttpErr`].
#[verifier::external_type_specification]
#[verifier::external_body]
pub struct ExHttpError(http::Error);

/// The transport error of the `hyper` crate, carried by [`TwilioErr::NetworkErr`].
#[verifier::external_type_specification]
#[verifier::external_body]
pub struct ExHyperError(hyper::Error);

/// The decode error of the `serde_json` crate, carried by [`TwilioErr::SerdeErr`].
#[verifier::external_type_specification]
#[verifier::external_body]
pub struct ExSerdeError(serde_json::Error);

/// The header-construction error of the `typed_headers` crate, carried by
/// [`TwilioErr::HeaderErr`].
#[verifier::external_type_specification]
#[verifier::external_body]
pub struct ExTypedHeadersError(typed_headers::Error);

/// The I/O error of the standard library, carried by [`TwilioErr::Io`].
#[verifier::external_type_specification]
#[verifier::external_body]
pub struct ExIoError(std::io::Error);

/// The string-conversion error of the standard library, carried by
/// [`TwilioErr::Utf8Err`].
#[verifier::external_type_specification]
#[verifier::external_body]
pub struct ExFromUtf8Error(std::string::FromUtf8Error);

/// A failure of the request pipeline. Every fallible step returns its own
/// kind at once; nothing is retried or swallowed. `BorrowErr` is the
/// concurrent-access conflict of the synchronous design: a second request
/// that begins while one is in flight fails with it instead of waiting.
#[derive(Debug)]
pub enum TwilioErr {
    Io(std::io::Error),
    UrlParse(http::uri::InvalidUri),
    NetworkErr(hyper::Error),
    SerdeErr(serde_json::Error),
    BorrowErr,
    Utf8Err(std::string::FromUtf8Error),
    HttpErr(http::Error),
    HeaderErr(typed_headers::Error),
}

impl TwilioErr {
    /// The name of this failure kind, for reporting.
    pub fn kind_str(&self) -> (r: &'static str)
        ensures
            r@ == match *self {
                TwilioErr::Io(_) => "Io"@,
                TwilioErr::UrlParse(_) => "UrlParse"@,
                TwilioErr::NetworkErr(_) => "NetworkErr"@,
                TwilioErr::SerdeErr(_) => "SerdeErr"@,
                TwilioErr::BorrowErr => "BorrowErr"@,
                TwilioErr::Utf8Err(_) => "Utf8Err"@,
                TwilioErr::HttpErr(_) => "HttpErr"@,
                TwilioErr::HeaderErr(_) => "HeaderErr"@,
            },
    {
        match self {
            TwilioErr::Io(_) => "Io",
            TwilioErr::UrlParse(_) => "UrlParse",
            TwilioErr::NetworkErr(_) => "NetworkErr",
            TwilioErr::SerdeErr(_) => "SerdeErr",
            TwilioErr::BorrowErr => "BorrowErr",
            TwilioErr::Utf8Err(_) => "Utf8Err",
            TwilioErr::HttpErr(_) => "HttpErr",
            TwilioErr::HeaderErr(_) => "HeaderErr",
        }
    }
}

pub type TwilioResult<T> = Result<T, TwilioErr>;

} // verus!

use vstd::prelude::*;

verus! {

/// The error taxonomy of the client.
///
/// Every failure of an operation is one of these kinds; callers match on the
/// kind to tell configuration problems, transient connection problems and
/// daemon-side data problems apart.  Variants carrying a `String` hold the
/// message of the underlying failure.
#[derive(Debug)]
pub enum Error {
    /// Opening or reading the connection failed, or PEM material could not
    /// be read from the response body.
    IoError(String),
    /// The HTTP layer failed to send the request or deliver the response.
    HyperError(String),
    /// The request could not be built into valid HTTP.
    HttpError(String),
    /// The daemon answered with an HTTP status other than 200.
    UnprocessableEntity,
    /// The response body was not well-formed JSON.
    ParsingError(String),
    /// The response body held no private key, or a PEM block of a type that
    /// is neither a certificate nor a recognized key encoding.
    UnknownCertificateOrKey,
}

impl Error {
    /// A short description of the error kind, for reporting.
    pub fn message(&self) -> (r: &'static str)
        ensures
            r@ == match self {
                Error::IoError(_) => "connection failed"@,
                Error::HyperError(_) => "request failed"@,
                Error::HttpError(_) => "http error"@,
                Error::UnprocessableEntity => "unprocessible entity"@,
                Error::ParsingError(_) => "unable to parse json"@,
                Error::UnknownCertificateOrKey => "unable to parse certificate or key"@,
            },
    {
        match self {
            Error::IoError(_) => "connection failed",
            Error::HyperError(_) => "request failed",
            Error::HttpError(_) => "http error",
            Error::UnprocessableEntity => "unprocessible entity",
            Error::ParsingError(_) => "unable to parse json",
            Error::UnknownCertificateOrKey => "unable to parse certificate or key",
        }
    }
}

} // verus!

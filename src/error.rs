//! The errors a method call can end in.

use vstd::prelude::*;

verus! {

/// A failure reported by the remote side inside a well-formed response
/// envelope: the status code, the remote error number and its message, kept
/// exactly as received.
#[derive(Debug, PartialEq, Eq)]
pub struct MethodError {
    pub status_code: u16,
    pub error_code: u16,
    pub message: String,
}

impl MethodError {
    /// A method error with the given status code, error number and message.
    pub fn new(status_code: u16, error_code: u16, message: String) -> (r: MethodError)
        ensures
            r.status_code == status_code,
            r.error_code == error_code,
            r.message == message,
    {
        MethodError { status_code, error_code, message }
    }

    /// The status code of the response.
    pub fn status_code(&self) -> (r: u16)
        ensures
            r == self.status_code,
    {
        self.status_code
    }

    /// The remote error number.
    pub fn error_code(&self) -> (r: u16)
        ensures
            r == self.error_code,
    {
        self.error_code
    }

    /// The remote error message.
    pub fn message(&self) -> (r: &str)
        ensures
            r@ == self.message@,
    {
        self.message.as_str()
    }
}

/// Why a method call failed.
#[derive(Debug, PartialEq, Eq)]
pub enum Error {
    /// The transport could not deliver the call or its response.
    Communication(String),
    /// A response arrived but does not have the shape the method expects.
    Deserialization(String),
    /// The remote side reported a failure.
    Method(MethodError),
    /// The caller is not authenticated.
    NotAuthenticated(String),
    /// The request could not be encoded.
    Serialization(String),
    /// The transport gave up waiting for the response.
    Timeout(String),
}

/// `r` is a decoding failure.
pub open spec fn is_decoding_error<T>(r: Result<T, Error>) -> bool {
    r matches Err(Error::Deserialization(_))
}

/// A decoding failure with the given explanation.
pub fn decoding_error<T>(reason: &str) -> (r: Result<T, Error>)
    ensures
        is_decoding_error(r),
{
    Err(Error::Deserialization(reason.to_owned()))
}

} // verus!

//! The outside error types that a failed metadata exchange carries.
use vstd::prelude::*;

verus! {

/// `hyper::http::Error`: a request that could not be built. Carried, never read.
#[verifier::external_type_specification]
#[verifier::external_body]
pub struct ExHttpRequestError(hyper::http::Error);

/// `hyper_util::client::legacy::Error`: a request the client could not send
/// or whose response it could not receive. Carried, never read.
#[verifier::external_type_specification]
#[verifier::external_body]
pub struct ExClientError(hyper_util::client::legacy::Error);

/// `hyper::Error`: a response body that could not be read. Carried, never read.
#[verifier::external_type_specification]
#[verifier::external_body]
pub struct ExHyperError(hyper::Error);

/// `std::str::Utf8Error`: a response body that is not UTF-8. Carried, never read.
#[verifier::external_type_specification]
#[verifier::external_body]
pub struct ExUtf8Error(std::str::Utf8Error);

} // verus!

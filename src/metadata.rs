//! The metadata-service client: where a request goes and what its response
//! means. Sending the request is left to the caller.
use vstd::prelude::*;

use crate::text::{trim_trailing_slashes, without_trailing_slashes};

verus! {

/// The documented link-local address of the metadata service. A fixed address
/// is used, not a host name, since the caller's network may not resolve one.
pub const METADATA_IP: &'static str = "169.254.169.254";

/// The environment variable that redirects metadata requests to another host.
pub const METADATA_HOST_ENV: &'static str = "GCE_METADATA_HOST";

/// The `User-Agent` header sent with each request.
pub const USER_AGENT: &'static str = "rust-gcp_metadata_resolver/0.1";

/// The `Metadata-Flavor` header that every request carries.
pub const METADATA_FLAVOR: &'static str = "Google";

/// A failure to exchange a request and response with the metadata service.
#[derive(Debug)]
pub enum HttpError {
    /// The request could not be built.
    HyperHttp(hyper::http::Error),
    /// The client could not send the request or receive the response.
    HyperClient(hyper_util::client::legacy::Error),
    /// The response body could not be read.
    Hyper(hyper::Error),
    /// The response body is not UTF-8.
    Utf8(std::str::Utf8Error),
}

/// Why a metadata value could not be had.
#[derive(Debug)]
pub enum MetadataError {
    /// The exchange itself failed.
    Http(HttpError),
    /// The service answered with a status other than 200 and 404: the status
    /// and the body.
    NotOk(u16, String),
    /// The service does not define the path.
    NotDefined(String),
}

/// The host that requests go to: the override where it is set and non-empty,
/// the fixed address otherwise.
pub open spec fn metadata_host(host_override: Option<Seq<char>>) -> Seq<char> {
    match host_override {
        Some(h) => if h.len() > 0 {
            h
        } else {
            METADATA_IP@
        },
        None => METADATA_IP@,
    }
}

/// The URL of `path` on the metadata service.
pub open spec fn metadata_url_of(host_override: Option<Seq<char>>, path: Seq<char>) -> Seq<char> {
    "http://"@ + metadata_host(host_override) + "/computeMetadata/v1/"@
        + without_trailing_slashes(path)
}

/// The URL that a request for `path` goes to: trailing slashes of `path` are
/// dropped, and `host_override` is the value of [`METADATA_HOST_ENV`], if set.
pub fn metadata_url(host_override: Option<String>, path: &str) -> (r: String)
    ensures
        r@ == metadata_url_of(
            match host_override {
                Some(h) => Some(h@),
                None => None,
            },
            path@,
        ),
{
    let host = match host_override {
        Some(h) => if h.as_str().is_empty() {
            String::from_str(METADATA_IP)
        } else {
            h
        },
        None => String::from_str(METADATA_IP),
    };
    let url = String::from_str("http://").concat(host.as_str());
    let url = url.concat("/computeMetadata/v1/");
    url.concat(trim_trailing_slashes(path))
}

/// What a response means. `status` is the response's status code, `body` its
/// body as text or the failure to read it, `etag` its `ETag` header.
/// - 404: the path is not defined (the path without trailing slashes);
/// - otherwise a body that could not be read is an exchange failure;
/// - a status other than 200 is an error holding the status and the body;
/// - 200 gives the body and the `ETag`.
pub fn interpret_response(
    path: &str,
    status: u16,
    body: Result<String, HttpError>,
    etag: Option<String>,
) -> (r: Result<(String, Option<String>), MetadataError>)
    ensures
        status == 404 ==> (r matches Err(MetadataError::NotDefined(p)) && p@
            == without_trailing_slashes(path@)),
        status != 404 ==> match body {
            Err(e) => r == Err::<(String, Option<String>), MetadataError>(MetadataError::Http(e)),
            Ok(b) => if status == 200 {
                (r matches Ok((v, t)) && v@ == b@ && t == etag)
            } else {
                (r matches Err(MetadataError::NotOk(s, v)) && s == status && v@ == b@)
            },
        },
{
    if status == 404 {
        return Err(MetadataError::NotDefined(String::from_str(trim_trailing_slashes(path))));
    }
    match body {
        Err(e) => Err(MetadataError::Http(e)),
        Ok(b) => if status != 200 {
            Err(MetadataError::NotOk(status, b))
        } else {
            Ok((b, etag))
        },
    }
}

} // verus!

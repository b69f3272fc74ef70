//! Client library for the UniFi Protect API.
//!
//! The verified part of the client decides everything that does not need
//! the network: the request targets and bodies, how a login answer turns
//! into session headers, and when a request is authenticated, sent again,
//! decoded or given up (`flow`).  The network itself is driven by the
//! caller, which performs each `flow::Step` and reports the outcome.

use vstd::prelude::*;

pub mod api;
pub mod auth;
pub mod flow;
pub mod json;
pub mod models;
mod text;

verus! {

/// `reqwest::Error`, the error of a failed HTTP exchange, carried through
/// the library as an opaque value.
#[verifier::external_type_specification]
#[verifier::external_body]
pub struct ExReqwestError(reqwest::Error);

/// Errors that can occur when making requests to the UniFi Protect API.
pub enum RequestError {
    /// Network-related errors (connection failures, timeouts, etc.).
    NetworkError(reqwest::Error),
    /// Authentication or authorization failure: the API answered with 401
    /// (Unauthorized) or 403 (Forbidden), even after one fresh login, or
    /// the login itself was refused.
    Unauthorized,
    /// The answer could not be decoded into the expected structure.
    DeserializationError(String),
    /// Any other failure.
    Unknown,
}

impl RequestError {
    /// The message that describes the error.
    pub fn message(&self) -> (text: String)
        ensures
            match self {
                RequestError::NetworkError(e) => exists|detail: String|
                    vstd::string::to_string_from_display_ensures::<reqwest::Error>(e, detail)
                    && text@ == "Network error: "@ + detail@,
                RequestError::Unauthorized => text@ == "Unauthorized access - check your credentials"@,
                RequestError::DeserializationError(reason) => text@ == "Failed to parse API response: "@ + reason@,
                RequestError::Unknown => text@ == "An unknown error occurred"@,
            },
    {
        match self {
            RequestError::NetworkError(e) => {
                let detail = e.to_string();
                let mut text = String::from_str("Network error: ");
                text.append(detail.as_str());
                text
            },
            RequestError::Unauthorized => String::from_str("Unauthorized access - check your credentials"),
            RequestError::DeserializationError(reason) => {
                let mut text = String::from_str("Failed to parse API response: ");
                text.append(reason.as_str());
                text
            },
            RequestError::Unknown => String::from_str("An unknown error occurred"),
        }
    }
}

/// Client for interacting with the UniFi Protect API: the controller's
/// address and the credentials to log in with.
pub struct UnifiProtectClient {
    pub host: String,
    pub credentials: auth::AuthCredentials,
}

impl UnifiProtectClient {
    /// Creates a new client for the controller at `host` (its base URL, such
    /// as `https://192.168.1.1`) that logs in as `username` with `password`.
    /// Nothing is sent: the client logs in on its first request.
    pub fn new(host: &str, username: &str, password: &str) -> (client: UnifiProtectClient)
        ensures
            client.host@ == host@,
            auth::secret_text(client.credentials.username) == username@,
            auth::secret_text(client.credentials.password) == password@,
    {
        UnifiProtectClient {
            host: host.to_owned(),
            credentials: auth::AuthCredentials {
                username: auth::Secret::from_text(username),
                password: auth::Secret::from_text(password),
            },
        }
    }

    /// The base URL of the controller.
    pub fn host(&self) -> (host: &str)
        ensures
            host@ == self.host@,
    {
        self.host.as_str()
    }

    /// The address of the API endpoint `path`: `{host}/{path}`.
    pub fn url_for(&self, path: &str) -> (url: String)
        ensures
            url@ == self.host@ + "/"@ + path@,
    {
        let mut url = self.host.clone();
        url.append("/");
        url.append(path);
        url
    }
}

/// The HTTP methods this client uses for API calls.
#[derive(Clone, Copy, PartialEq, Eq, Structural, Debug)]
pub enum Method {
    Get,
    Patch,
}

/// A 2xx status code.
pub open spec fn is_success_status(status: u16) -> bool {
    200 <= status <= 299
}

/// Whether an answer with `status` means that the credentials or the
/// session are not (or no longer) accepted: 401 (Unauthorized) or 403
/// (Forbidden).
pub open spec fn is_auth_failure_status(status: u16) -> bool {
    status == 401 || status == 403
}

/// Whether `status` is a success (2xx) status.
pub fn status_is_success(status: u16) -> (r: bool)
    ensures
        r == is_success_status(status),
{
    200 <= status && status <= 299
}

/// Whether `status` rejects the credentials or the session.
pub fn status_is_auth_failure(status: u16) -> (r: bool)
    ensures
        r == is_auth_failure_status(status),
{
    status == 401 || status == 403
}

} // verus!

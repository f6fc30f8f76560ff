//! The error type of the relay's outer boundary.
//!
//! An `AppError` is a closed set of kinds, each with the failure it came from
//! or a message. It is made once, by conversion from the failing source or by
//! the code that met the failure, and is then only rendered as one line of
//! text for whoever asked.

use vstd::prelude::*;
use vstd::std_specs::convert::FromSpecImpl;
use vstd::string::{to_string_from_display_ensures, StringExecFns};

verus! {

/// `rusqlite::Error`, kept as the storage engine reported it.
#[verifier::external_type_specification]
#[verifier::external_body]
pub struct ExSqliteError(rusqlite::Error);

/// `std::io::Error`, kept as the operating system reported it.
#[verifier::external_type_specification]
#[verifier::external_body]
pub struct ExIoError(std::io::Error);

/// `reqwest::Error`, which is read into an `HttpFailure`.
#[verifier::external_type_specification]
#[verifier::external_body]
pub struct ExHttpError(reqwest::Error);

/// What an HTTP client reported of a failed request: its message and, where
/// the failure came from a response, the status code of that response.
#[derive(Debug)]
pub struct HttpFailure {
    pub message: String,
    pub status: Option<u16>,
}

/// A failure at the outer boundary of the relay.
#[derive(Debug)]
pub enum AppError {
    /// The storage engine failed.
    Database(rusqlite::Error),
    /// An HTTP request failed; with the status code where there was one.
    Network(String, Option<u16>),
    /// The file system failed.
    Io(std::io::Error),
    /// The host runtime failed.
    Tauri(String),
    /// The authorization flow failed.
    OAuth(String),
    /// The configuration is wrong.
    Config(String),
    /// An account could not be used.
    Account(String),
    /// Anything else.
    Unknown(String),
}

/// The status code that a failure of the HTTP client carries: that of the
/// response it came from, and none where it came from no response.
pub uninterp spec fn reqwest_status(err: reqwest::Error) -> Option<u16>;

/// The status code of the response behind a failure of the HTTP client.
///
/// Trusted: the number is that of the `http::StatusCode` which
/// `reqwest::Error::status` returns, where it returns one. It depends on the
/// failure alone.
#[verifier::external_body]
fn http_status(err: &reqwest::Error) -> (r: Option<u16>)
    ensures
        r == reqwest_status(*err),
{
    err.status().map(|s| s.as_u16())
}

impl AppError {
    /// The words that open the rendered text of the kind.
    pub open spec fn heading(self) -> Seq<char> {
        match self {
            AppError::Database(_) => "Database error: "@,
            AppError::Network(_, _) => "Network error: "@,
            AppError::Io(_) => "IO error: "@,
            AppError::Tauri(_) => "Tauri error: "@,
            AppError::OAuth(_) => "OAuth error: "@,
            AppError::Config(_) => "Configuration error: "@,
            AppError::Account(_) => "Account error: "@,
            AppError::Unknown(_) => "Unknown error: "@,
        }
    }

    /// Whether `detail` is the text that follows the heading: the message,
    /// or the source failure rendered as text.
    pub open spec fn has_detail(self, detail: String) -> bool {
        match self {
            AppError::Database(source) => to_string_from_display_ensures::<rusqlite::Error>(
                &source,
                detail,
            ),
            AppError::Io(source) => to_string_from_display_ensures::<std::io::Error>(
                &source,
                detail,
            ),
            AppError::Network(message, _) => detail@ == message@,
            AppError::Tauri(message) => detail@ == message@,
            AppError::OAuth(message) => detail@ == message@,
            AppError::Config(message) => detail@ == message@,
            AppError::Account(message) => detail@ == message@,
            AppError::Unknown(message) => detail@ == message@,
        }
    }

    /// The status code of the response behind a network failure; none for
    /// every other failure.
    pub open spec fn status_code(self) -> Option<u16> {
        match self {
            AppError::Network(_, status) => status,
            _ => None,
        }
    }

    /// The failure of an HTTP request, as a `reqwest` client reported it: its
    /// rendered text, with the status code that it carries.
    pub fn from_reqwest(err: reqwest::Error) -> (r: AppError)
        ensures
            r matches AppError::Network(message, status) && status == reqwest_status(err)
                && to_string_from_display_ensures::<reqwest::Error>(&err, message),
    {
        let message = err.to_string();
        let status = http_status(&err);
        AppError::from(HttpFailure { message, status })
    }

    /// The status code of the response behind a network failure.
    pub fn status(&self) -> (r: Option<u16>)
        ensures
            r == self.status_code(),
    {
        match self {
            AppError::Network(_, status) => *status,
            _ => None,
        }
    }

    /// The failure as one line of text: the heading of its kind, then its
    /// detail. This text is all that crosses the boundary.
    pub fn to_string(&self) -> (r: String)
        ensures
            exists|detail: String| #[trigger] self.has_detail(detail) && r@ == self.heading() + detail@,
    {
        match self {
            AppError::Database(source) => {
                let detail = source.to_string();
                let r = String::from_str("Database error: ").concat(detail.as_str());
                assert(self.has_detail(detail));
                r
            },
            AppError::Io(source) => {
                let detail = source.to_string();
                let r = String::from_str("IO error: ").concat(detail.as_str());
                assert(self.has_detail(detail));
                r
            },
            AppError::Network(message, _) => {
                let r = String::from_str("Network error: ").concat(message.as_str());
                assert(self.has_detail(*message));
                r
            },
            AppError::Tauri(message) => {
                let r = String::from_str("Tauri error: ").concat(message.as_str());
                assert(self.has_detail(*message));
                r
            },
            AppError::OAuth(message) => {
                let r = String::from_str("OAuth error: ").concat(message.as_str());
                assert(self.has_detail(*message));
                r
            },
            AppError::Config(message) => {
                let r = String::from_str("Configuration error: ").concat(message.as_str());
                assert(self.has_detail(*message));
                r
            },
            AppError::Account(message) => {
                let r = String::from_str("Account error: ").concat(message.as_str());
                assert(self.has_detail(*message));
                r
            },
            AppError::Unknown(message) => {
                let r = String::from_str("Unknown error: ").concat(message.as_str());
                assert(self.has_detail(*message));
                r
            },
        }
    }
}

impl From<rusqlite::Error> for AppError {
    fn from(err: rusqlite::Error) -> (r: AppError) {
        AppError::Database(err)
    }
}

impl FromSpecImpl<rusqlite::Error> for AppError {
    open spec fn obeys_from_spec() -> bool {
        true
    }

    open spec fn from_spec(err: rusqlite::Error) -> AppError {
        AppError::Database(err)
    }
}

impl From<std::io::Error> for AppError {
    fn from(err: std::io::Error) -> (r: AppError) {
        AppError::Io(err)
    }
}

impl FromSpecImpl<std::io::Error> for AppError {
    open spec fn obeys_from_spec() -> bool {
        true
    }

    open spec fn from_spec(err: std::io::Error) -> AppError {
        AppError::Io(err)
    }
}

impl From<HttpFailure> for AppError {
    fn from(failure: HttpFailure) -> (r: AppError) {
        AppError::Network(failure.message, failure.status)
    }
}

impl FromSpecImpl<HttpFailure> for AppError {
    open spec fn obeys_from_spec() -> bool {
        true
    }

    open spec fn from_spec(failure: HttpFailure) -> AppError {
        AppError::Network(failure.message, failure.status)
    }
}

} // verus!

//! Error taxonomy for a download run.

use vstd::prelude::*;
use vstd::string::*;

use crate::config::ConfigError;
use crate::utils::{spec_dec_digits, u64_to_dec_string};

verus! {

/// Every way a job or a whole run can fail. Transport-level failures
/// carry the index of the job they belong to and a human-readable
/// message supplied by the I/O layer.
#[derive(Debug)]
pub enum DownloadError {
    /// Filesystem failure while creating or writing a destination file.
    Io(String),
    /// Transport failure reported by the HTTP client outside any
    /// particular request/response exchange.
    Reqwest(String),
    /// A response arrived with a non-success status: job index, status
    /// code, status text.
    HttpError(u32, u16, String),
    /// The request could not be sent or the body stream broke: job
    /// index, transport message.
    NetworkError(u32, String),
    /// The downloaded content does not hash to the registered checksum:
    /// job index, expected digest, actual digest.
    ChecksumMismatch(u32, String, String),
    /// A URL was rejected before any request was made.
    InvalidUrl(String),
    /// A URL failed full syntactic parsing.
    UrlParseError(String),
    /// The run configuration was rejected.
    ConfigError(String),
    /// Any other failure, described by its message.
    Other(String),
    /// A worker task ended abnormally.
    JoinError(String),
    /// A worker-pool slot could not be acquired.
    AcquireError(String),
}

/// The sentence `DownloadError::message` renders.
pub open spec fn spec_error_message(e: DownloadError) -> Seq<char> {
    match e {
        DownloadError::Io(m) => "IO error: "@ + m@,
        DownloadError::Reqwest(m) => "HTTP error: "@ + m@,
        DownloadError::HttpError(i, code, text) => "HTTP error for file "@ + spec_dec_digits(
            i as nat,
        ) + ": "@ + spec_dec_digits(code as nat) + " "@ + text@,
        DownloadError::NetworkError(i, m) => "Network error for file "@ + spec_dec_digits(i as nat)
            + ": "@ + m@,
        DownloadError::ChecksumMismatch(i, expected, actual) => "Checksum mismatch for file "@
            + spec_dec_digits(i as nat) + ": expected "@ + expected@ + ", got "@ + actual@,
        DownloadError::InvalidUrl(m) => "Invalid URL: "@ + m@,
        DownloadError::UrlParseError(m) => "URL parse error: "@ + m@,
        DownloadError::ConfigError(m) => "Configuration error: "@ + m@,
        DownloadError::Other(m) => "Other error: "@ + m@,
        DownloadError::JoinError(m) => "Task join error: "@ + m@,
        DownloadError::AcquireError(m) => "Semaphore acquire error: "@ + m@,
    }
}

impl DownloadError {
    /// Render the failure as a sentence naming its kind, the job it
    /// belongs to, and the transport's own words.
    pub fn message(&self) -> (s: String)
        ensures
            s@ == spec_error_message(*self),
    {
        match self {
            DownloadError::Io(m) => {
                let mut s = "IO error: ".to_owned();
                s.append(m.as_str());
                s
            },
            DownloadError::Reqwest(m) => {
                let mut s = "HTTP error: ".to_owned();
                s.append(m.as_str());
                s
            },
            DownloadError::HttpError(i, code, text) => {
                let mut s = "HTTP error for file ".to_owned();
                let index_digits = u64_to_dec_string(*i as u64);
                s.append(index_digits.as_str());
                s.append(": ");
                let code_digits = u64_to_dec_string(*code as u64);
                s.append(code_digits.as_str());
                s.append(" ");
                s.append(text.as_str());
                proof {
                    assert(s@ =~= spec_error_message(*self));
                }
                s
            },
            DownloadError::NetworkError(i, m) => {
                let mut s = "Network error for file ".to_owned();
                let index_digits = u64_to_dec_string(*i as u64);
                s.append(index_digits.as_str());
                s.append(": ");
                s.append(m.as_str());
                proof {
                    assert(s@ =~= spec_error_message(*self));
                }
                s
            },
            DownloadError::ChecksumMismatch(i, expected, actual) => {
                let mut s = "Checksum mismatch for file ".to_owned();
                let index_digits = u64_to_dec_string(*i as u64);
                s.append(index_digits.as_str());
                s.append(": expected ");
                s.append(expected.as_str());
                s.append(", got ");
                s.append(actual.as_str());
                proof {
                    assert(s@ =~= spec_error_message(*self));
                }
                s
            },
            DownloadError::InvalidUrl(m) => {
                let mut s = "Invalid URL: ".to_owned();
                s.append(m.as_str());
                s
            },
            DownloadError::UrlParseError(m) => {
                let mut s = "URL parse error: ".to_owned();
                s.append(m.as_str());
                s
            },
            DownloadError::ConfigError(m) => {
                let mut s = "Configuration error: ".to_owned();
                s.append(m.as_str());
                s
            },
            DownloadError::Other(m) => {
                let mut s = "Other error: ".to_owned();
                s.append(m.as_str());
                s
            },
            DownloadError::JoinError(m) => {
                let mut s = "Task join error: ".to_owned();
                s.append(m.as_str());
                s
            },
            DownloadError::AcquireError(m) => {
                let mut s = "Semaphore acquire error: ".to_owned();
                s.append(m.as_str());
                s
            },
        }
    }

    /// Whether the retry/backoff loop may re-attempt after this error.
    /// Only transport-level failures (non-success status, network
    /// break) are retryable; invalid input, checksum mismatches and
    /// filesystem failures are terminal at once.
    pub fn is_retryable(&self) -> (r: bool)
        ensures
            r == (self matches DownloadError::HttpError(_, _, _) || self
                matches DownloadError::NetworkError(_, _) || self matches DownloadError::Reqwest(
                _,
            )),
    {
        match self {
            DownloadError::HttpError(_, _, _) => true,
            DownloadError::NetworkError(_, _) => true,
            DownloadError::Reqwest(_) => true,
            _ => false,
        }
    }
}

impl From<ConfigError> for DownloadError {
    /// A rejected configuration surfaces as a `ConfigError` carrying
    /// the rejection's description.
    fn from(err: ConfigError) -> (r: DownloadError)
        ensures
            r matches DownloadError::ConfigError(m) && m@ == err.describe_spec(),
    {
        DownloadError::ConfigError(err.into_description())
    }
}

impl vstd::std_specs::convert::FromSpecImpl<ConfigError> for DownloadError {
    open spec fn obeys_from_spec() -> bool {
        false
    }

    open spec fn from_spec(t: ConfigError) -> DownloadError {
        arbitrary()
    }
}

} // verus!

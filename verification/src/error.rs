//! The failures of the engine, each a kind and a diagnostic text.

use crate::text::prefixed;
use vstd::prelude::*;

verus! {

/// What went wrong, by the part of the engine that failed.
#[derive(Clone, Copy, Debug, PartialEq, Eq, Structural)]
pub enum ErrorKind {
    /// Durable storage could not be read or written.
    Io,
    /// The repository could not be opened, staged, committed or published.
    Git,
    /// The remote service could not be reached.
    Network,
    /// The remote service answered with a status that is not a success.
    Api,
    /// Stored or received data could not be decoded.
    Parse,
    /// No credential is configured.
    Config,
    /// The scheduler was started while it was active.
    Concurrency,
    /// The remote service answered without any usable text.
    NoCandidate,
}

/// A failure: its kind, and the text shown to the user.
#[derive(Debug, PartialEq, Eq)]
pub struct AppError {
    pub kind: ErrorKind,
    pub message: String,
}

/// The mathematical value of an [`AppError`].
pub struct ErrorView {
    pub kind: ErrorKind,
    pub message: Seq<char>,
}

impl View for AppError {
    type V = ErrorView;

    open spec fn view(&self) -> ErrorView {
        ErrorView { kind: self.kind, message: self.message@ }
    }
}

impl Clone for AppError {
    fn clone(&self) -> (copy: AppError)
        ensures
            copy@ == self@,
    {
        AppError { kind: self.kind, message: self.message.clone() }
    }
}

/// A repository operation failed for the reason `why`.
pub open spec fn git_failure(why: Seq<char>) -> ErrorView {
    ErrorView { kind: ErrorKind::Git, message: why }
}

/// The staging command ran and reported failure.
pub open spec fn staging_rejected() -> ErrorView {
    ErrorView { kind: ErrorKind::Git, message: "git add failed"@ }
}

/// The commit command ran and reported failure.
pub open spec fn commit_rejected() -> ErrorView {
    ErrorView { kind: ErrorKind::Git, message: "git commit failed"@ }
}

/// The publish command ran and reported failure.
pub open spec fn publish_rejected() -> ErrorView {
    ErrorView { kind: ErrorKind::Git, message: "git push failed"@ }
}

/// The pipeline found no credential.
pub open spec fn missing_credential() -> ErrorView {
    ErrorView {
        kind: ErrorKind::Config,
        message: "Gemini API Key not configured. Please add your API key in settings."@,
    }
}

/// The request for a commit message never got a response.
pub open spec fn network_failure(why: Seq<char>) -> ErrorView {
    ErrorView { kind: ErrorKind::Network, message: "Network error: "@ + why }
}

/// The service refused the request for a commit message; `body` is what it sent.
pub open spec fn api_failure(body: Seq<char>) -> ErrorView {
    ErrorView { kind: ErrorKind::Api, message: "Gemini API error: "@ + body }
}

/// The service's answer could not be decoded.
pub open spec fn response_malformed(why: Seq<char>) -> ErrorView {
    ErrorView { kind: ErrorKind::Parse, message: "Failed to parse response: "@ + why }
}

/// The service's answer held no text.
pub open spec fn no_candidate() -> ErrorView {
    ErrorView { kind: ErrorKind::NoCandidate, message: "No commit message generated"@ }
}

/// The scheduler was asked to start while active.
pub open spec fn already_running() -> ErrorView {
    ErrorView { kind: ErrorKind::Concurrency, message: "Timer is already running"@ }
}

/// The credential check never got a response.
pub open spec fn connection_failure(why: Seq<char>) -> ErrorView {
    ErrorView { kind: ErrorKind::Network, message: "Connection error: "@ + why }
}

/// The service refused the credential; `body` is what it sent.
pub open spec fn invalid_key(body: Seq<char>) -> ErrorView {
    ErrorView { kind: ErrorKind::Api, message: "Invalid API Key: "@ + body }
}

/// No configuration directory is known on this system.
pub open spec fn config_dir_unknown() -> ErrorView {
    ErrorView { kind: ErrorKind::Io, message: "Failed to get config directory"@ }
}

/// The configuration directory could not be created.
pub open spec fn config_dir_failure(why: Seq<char>) -> ErrorView {
    ErrorView { kind: ErrorKind::Io, message: "Failed to create config directory: "@ + why }
}

/// The configuration could not be turned into text.
pub open spec fn config_unwritable(why: Seq<char>) -> ErrorView {
    ErrorView { kind: ErrorKind::Io, message: "Failed to serialize config: "@ + why }
}

/// The configuration file could not be written.
pub open spec fn config_save_failure(why: Seq<char>) -> ErrorView {
    ErrorView { kind: ErrorKind::Io, message: "Failed to save config: "@ + why }
}

/// The configuration file could not be read.
pub open spec fn config_read_failure(why: Seq<char>) -> ErrorView {
    ErrorView { kind: ErrorKind::Io, message: "Failed to read config: "@ + why }
}

/// The configuration file does not hold a configuration.
pub open spec fn config_malformed(why: Seq<char>) -> ErrorView {
    ErrorView { kind: ErrorKind::Parse, message: "Failed to parse config: "@ + why }
}

impl AppError {
    pub fn git(why: String) -> (e: AppError)
        ensures
            e@ == git_failure(why@),
    {
        AppError { kind: ErrorKind::Git, message: why }
    }

    pub fn staging_rejected() -> (e: AppError)
        ensures
            e@ == staging_rejected(),
    {
        AppError { kind: ErrorKind::Git, message: String::from_str("git add failed") }
    }

    pub fn commit_rejected() -> (e: AppError)
        ensures
            e@ == commit_rejected(),
    {
        AppError { kind: ErrorKind::Git, message: String::from_str("git commit failed") }
    }

    pub fn publish_rejected() -> (e: AppError)
        ensures
            e@ == publish_rejected(),
    {
        AppError { kind: ErrorKind::Git, message: String::from_str("git push failed") }
    }

    pub fn missing_credential() -> (e: AppError)
        ensures
            e@ == missing_credential(),
    {
        AppError {
            kind: ErrorKind::Config,
            message: String::from_str(
                "Gemini API Key not configured. Please add your API key in settings.",
            ),
        }
    }

    pub fn network(why: &str) -> (e: AppError)
        ensures
            e@ == network_failure(why@),
    {
        AppError { kind: ErrorKind::Network, message: prefixed("Network error: ", why) }
    }

    pub fn api(body: &str) -> (e: AppError)
        ensures
            e@ == api_failure(body@),
    {
        AppError { kind: ErrorKind::Api, message: prefixed("Gemini API error: ", body) }
    }

    pub fn response_malformed(why: &str) -> (e: AppError)
        ensures
            e@ == response_malformed(why@),
    {
        AppError { kind: ErrorKind::Parse, message: prefixed("Failed to parse response: ", why) }
    }

    pub fn no_candidate() -> (e: AppError)
        ensures
            e@ == no_candidate(),
    {
        AppError {
            kind: ErrorKind::NoCandidate,
            message: String::from_str("No commit message generated"),
        }
    }

    pub fn already_running() -> (e: AppError)
        ensures
            e@ == already_running(),
    {
        AppError {
            kind: ErrorKind::Concurrency,
            message: String::from_str("Timer is already running"),
        }
    }

    pub fn connection(why: &str) -> (e: AppError)
        ensures
            e@ == connection_failure(why@),
    {
        AppError { kind: ErrorKind::Network, message: prefixed("Connection error: ", why) }
    }

    pub fn invalid_key(body: &str) -> (e: AppError)
        ensures
            e@ == invalid_key(body@),
    {
        AppError { kind: ErrorKind::Api, message: prefixed("Invalid API Key: ", body) }
    }

    pub fn config_dir_unknown() -> (e: AppError)
        ensures
            e@ == config_dir_unknown(),
    {
        AppError { kind: ErrorKind::Io, message: String::from_str("Failed to get config directory") }
    }

    pub fn config_dir(why: &str) -> (e: AppError)
        ensures
            e@ == config_dir_failure(why@),
    {
        AppError {
            kind: ErrorKind::Io,
            message: prefixed("Failed to create config directory: ", why),
        }
    }

    pub fn config_unwritable(why: &str) -> (e: AppError)
        ensures
            e@ == config_unwritable(why@),
    {
        AppError { kind: ErrorKind::Io, message: prefixed("Failed to serialize config: ", why) }
    }

    pub fn config_save(why: &str) -> (e: AppError)
        ensures
            e@ == config_save_failure(why@),
    {
        AppError { kind: ErrorKind::Io, message: prefixed("Failed to save config: ", why) }
    }

    pub fn config_read(why: &str) -> (e: AppError)
        ensures
            e@ == config_read_failure(why@),
    {
        AppError { kind: ErrorKind::Io, message: prefixed("Failed to read config: ", why) }
    }

    pub fn config_malformed(why: &str) -> (e: AppError)
        ensures
            e@ == config_malformed(why@),
    {
        AppError { kind: ErrorKind::Parse, message: prefixed("Failed to parse config: ", why) }
    }

    /// The text to show for this failure.
    pub fn describe(&self) -> (text: String)
        ensures
            text@ == self@.message,
    {
        self.message.clone()
    }
}

} // verus!

use auto_commit::error::{AppError, ErrorKind};
use auto_commit::text::prefixed;

fn check(error: AppError, kind: ErrorKind, message: &str) {
    assert_eq!(error.kind, kind);
    assert_eq!(error.message, message);
    assert_eq!(error.describe(), message);
    assert_eq!(error.clone(), error);
}

#[test]
fn repository_failures_carry_their_reason_as_it_is() {
    check(AppError::git("fatal: not a git repository".to_string()), ErrorKind::Git, "fatal: not a git repository");
    check(AppError::git(String::new()), ErrorKind::Git, "");
    check(AppError::staging_rejected(), ErrorKind::Git, "git add failed");
    check(AppError::commit_rejected(), ErrorKind::Git, "git commit failed");
    check(AppError::publish_rejected(), ErrorKind::Git, "git push failed");
}

#[test]
fn failures_of_the_exchange_name_what_failed() {
    check(AppError::network("timed out"), ErrorKind::Network, "Network error: timed out");
    check(AppError::api("quota exceeded"), ErrorKind::Api, "Gemini API error: quota exceeded");
    check(
        AppError::response_malformed("EOF while parsing"),
        ErrorKind::Parse,
        "Failed to parse response: EOF while parsing",
    );
    check(AppError::no_candidate(), ErrorKind::NoCandidate, "No commit message generated");
}

#[test]
fn a_missing_credential_tells_where_to_set_it() {
    check(
        AppError::missing_credential(),
        ErrorKind::Config,
        "Gemini API Key not configured. Please add your API key in settings.",
    );
}

#[test]
fn a_duplicate_start_is_a_concurrency_failure() {
    check(AppError::already_running(), ErrorKind::Concurrency, "Timer is already running");
}

#[test]
fn failures_of_the_credential_check_name_what_failed() {
    check(AppError::connection("refused"), ErrorKind::Network, "Connection error: refused");
    check(AppError::invalid_key("bad"), ErrorKind::Api, "Invalid API Key: bad");
}

#[test]
fn failures_of_storage_name_what_failed() {
    check(AppError::config_dir_unknown(), ErrorKind::Io, "Failed to get config directory");
    check(
        AppError::config_dir("read-only file system"),
        ErrorKind::Io,
        "Failed to create config directory: read-only file system",
    );
    check(
        AppError::config_unwritable("key must be a string"),
        ErrorKind::Io,
        "Failed to serialize config: key must be a string",
    );
    check(AppError::config_save("disk full"), ErrorKind::Io, "Failed to save config: disk full");
    check(AppError::config_read("denied"), ErrorKind::Io, "Failed to read config: denied");
    check(
        AppError::config_malformed("expected `,`"),
        ErrorKind::Parse,
        "Failed to parse config: expected `,`",
    );
}

#[test]
fn a_prefix_is_followed_by_the_detail() {
    assert_eq!(prefixed("a: ", "b"), "a: b");
    assert_eq!(prefixed("", ""), "");
    assert_eq!(prefixed("é", "日"), "é日");
}

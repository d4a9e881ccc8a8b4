//! A check of a credential against the remote service, apart from any run:
//! one small request is sent with the credential, and only the status of
//! the answer counts.

use crate::error::{connection_failure, invalid_key, AppError, ErrorView};
use crate::message::{
    endpoint, endpoint_url, is_success, single_turn, success, GenerationRequest, HttpReply,
    HttpReplyView, RequestView,
};
use vstd::prelude::*;

verus! {

/// The system text of the request that checks a credential.
pub const CHECK_INSTRUCTION: &'static str = "You are a helpful assistant.";

/// The user's turn of the request that checks a credential.
pub const CHECK_PROMPT: &'static str = "Say 'API Key is valid' if you can read this.";

/// What is said of a credential that the service accepted.
pub const KEY_ACCEPTED: &'static str = "API Key is valid!";

/// The request that checks a credential.
pub open spec fn check_request() -> RequestView {
    single_turn(CHECK_INSTRUCTION@, CHECK_PROMPT@)
}

/// What the answer to the check says of the credential: any successful
/// status accepts it, whatever the body holds and whether or not it could
/// be read; any other status rejects it, with the body as the reason, an
/// empty one where it could not be read; no answer at all is a failure to
/// connect.
pub open spec fn verdict(reply: HttpReplyView) -> Result<Seq<char>, ErrorView> {
    match reply {
        HttpReplyView::Unreachable(why) => Err(connection_failure(why)),
        HttpReplyView::Response { status, body } => if success(status) {
            Ok(KEY_ACCEPTED@)
        } else {
            Err(invalid_key(body))
        },
        HttpReplyView::Unread { status, why } => if success(status) {
            Ok(KEY_ACCEPTED@)
        } else {
            Err(invalid_key(Seq::empty()))
        },
    }
}

/// The address and the request with which `credential` is checked. The
/// credential is the one given, not the one configured.
pub fn check_exchange(credential: &str) -> (exchange: (String, GenerationRequest))
    ensures
        exchange.0@ == endpoint(credential@),
        exchange.1@ == check_request(),
{
    (
        endpoint_url(credential),
        GenerationRequest::single_turn(CHECK_INSTRUCTION, String::from_str(CHECK_PROMPT)),
    )
}

/// Judges a credential by the answer to its check.
pub fn judge(reply: HttpReply) -> (judged: Result<String, AppError>)
    ensures
        match judged {
            Ok(text) => verdict(reply@) == Ok::<Seq<char>, ErrorView>(text@),
            Err(error) => verdict(reply@) == Err::<Seq<char>, ErrorView>(error@),
        },
{
    match reply {
        HttpReply::Unreachable(why) => Err(AppError::connection(why.as_str())),
        HttpReply::Response { status, body } => {
            if is_success(status) {
                Ok(String::from_str(KEY_ACCEPTED))
            } else {
                Err(AppError::invalid_key(body.as_str()))
            }
        },
        HttpReply::Unread { status, why } => {
            if is_success(status) {
                Ok(String::from_str(KEY_ACCEPTED))
            } else {
                Err(AppError::invalid_key(String::new().as_str()))
            }
        },
    }
}

} // verus!

//! What an authenticated call does with the answers it gets.
//!
//! A call is sent with a snapshot of the live token. A 401 on this first
//! attempt means that the token may have expired: the caller asks the token
//! cell for a refresh, naming the snapshot, and sends the call once more
//! with the token it is handed. Whatever comes back then is final; a second
//! 401 is a client error like any other 4xx.

use crate::error::Error;
use crate::error::RequestFailure;
use crate::github_api::request::classified;
use crate::github_api::request::classify;
use crate::github_api::request::RawResponse;
use crate::github_api::request::UNAUTHORIZED;
use vstd::prelude::*;

verus! {

/// What follows the first attempt.
#[derive(Debug, PartialEq, Eq)]
pub enum FirstAttempt {
    /// The call is over, with the bytes to decode or with an error.
    Finished(Result<Vec<u8>, Error>),
    /// The credential was rejected: refresh the token and send again, once.
    RefreshAndRetry,
}

/// Whether the server rejected the credential. `None` stands for a call
/// that the transport gave up on.
pub open spec fn is_unauthorized(delivery: Option<RawResponse>) -> bool {
    match delivery {
        Some(response) => response.status == UNAUTHORIZED,
        None => false,
    }
}

/// Whether `result` is what the end of an attempt resolves to: a transport
/// failure where nothing was delivered, else what the response stands for.
pub open spec fn resolved(delivery: Option<RawResponse>, result: Result<Vec<u8>, Error>) -> bool {
    match delivery {
        Some(response) => classified(response.status, response.url@, response.body@, result),
        None => result == Err::<Vec<u8>, Error>(
            Error::MakeGitHubApiRequest(RequestFailure::Transport),
        ),
    }
}

/// Decides what follows the first attempt of a call.
pub fn after_first_attempt(delivery: Option<RawResponse>) -> (next: FirstAttempt)
    ensures
        match next {
            FirstAttempt::RefreshAndRetry => is_unauthorized(delivery),
            FirstAttempt::Finished(result) => !is_unauthorized(delivery) && resolved(
                delivery,
                result,
            ),
        },
{
    match delivery {
        None => FirstAttempt::Finished(
            Err(Error::MakeGitHubApiRequest(RequestFailure::Transport)),
        ),
        Some(response) => {
            if response.status == UNAUTHORIZED {
                FirstAttempt::RefreshAndRetry
            } else {
                FirstAttempt::Finished(classify(response))
            }
        },
    }
}

/// Resolves the one retry that follows a refresh. Nothing is retried after
/// it.
pub fn after_retry(delivery: Option<RawResponse>) -> (result: Result<Vec<u8>, Error>)
    ensures
        resolved(delivery, result),
{
    match delivery {
        None => Err(Error::MakeGitHubApiRequest(RequestFailure::Transport)),
        Some(response) => classify(response),
    }
}

/// Whether `result` is the client error for a rejected credential.
pub open spec fn is_unauthorized_error(result: Result<Vec<u8>, Error>) -> bool {
    match result {
        Err(Error::ReceivedGitHubApiClientError { status_code, .. }) => status_code == UNAUTHORIZED,
        _ => false,
    }
}

/// A 401 on the retry ends the call with a client error: the executor
/// never refreshes twice for one call.
pub proof fn lemma_second_rejection_is_final(
    delivery: Option<RawResponse>,
    result: Result<Vec<u8>, Error>,
)
    requires
        is_unauthorized(delivery),
        resolved(delivery, result),
    ensures
        is_unauthorized_error(result),
{
}

/// A response without a body, outside the 4xx and 5xx ranges, resolves to
/// an empty JSON object, which decodes where empty bytes would not.
pub proof fn lemma_empty_body_is_empty_object(
    response: RawResponse,
    result: Result<Vec<u8>, Error>,
)
    requires
        !(400 <= response.status < 600),
        response.body@.len() == 0,
        resolved(Some(response), result),
    ensures
        result matches Ok(bytes) ==> bytes@ == seq![0x7bu8, 0x7du8],
        result is Ok,
{
}

} // verus!

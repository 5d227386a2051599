//! Cooperative cancellation: a shared token that long-running work consults
//! at its check points.

use vstd::prelude::*;
use tokio_util::sync::CancellationToken;

verus! {

#[verifier::external_type_specification]
#[verifier::external_body]
pub struct ExCancellationToken(CancellationToken);

/// Relies on tokio_util's `CancellationToken::is_cancelled`: whether the token
/// has been signalled by now. Another task may signal it at any moment, so
/// nothing is known of the answer.
#[verifier::external_body]
fn token_is_cancelled(token: &CancellationToken) -> (r: bool) {
    token.is_cancelled()
}

/// The outcome of a cancellation check point that observed `cancelled`.
pub fn cancellation_outcome<E>(cancelled: bool, error: E) -> (r: Result<(), E>)
    ensures
        cancelled ==> r == Err::<(), E>(error),
        !cancelled ==> r is Ok,
{
    if cancelled {
        Err(error)
    } else {
        Ok(())
    }
}

/// A check point: fails with `error` when the token has been signalled.
pub fn check_cancellation<E>(token: &CancellationToken, error: E) -> (r: Result<(), E>)
    ensures
        r is Ok || r == Err::<(), E>(error),
{
    cancellation_outcome(token_is_cancelled(token), error)
}

} // verus!

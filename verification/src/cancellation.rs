//! Evidence that a cancellation token was cancelled.

use vstd::prelude::*;
use tokio_util::sync::CancellationToken;

verus! {

/// A token that has been cancelled. The only way to get one is `cancel`,
/// which cancels the token it then holds (and so every clone of it).
pub struct CancelledToken {
    token: CancellationToken,
}

impl CancelledToken {
    /// The token that was cancelled.
    pub closed spec fn spec_token(&self) -> CancellationToken {
        self.token
    }

    /// The token that was cancelled.
    pub fn token(&self) -> (res: &CancellationToken)
        ensures
            *res == self.spec_token(),
    {
        &self.token
    }
}

/// Cancels the token, and with it every clone of it.
///
/// Trusted: wraps `CancellationToken::cancel`, which tokio-util documents as
/// cancelling the token and its clones. The contract states that the
/// evidence returned holds the very token given; the cancellation itself is
/// shared state that the contract cannot describe, which is why the
/// evidence type is made here and nowhere else.
#[verifier::external_body]
pub(crate) fn cancel(token: CancellationToken) -> (res: CancelledToken)
    ensures
        res.spec_token() == token,
{
    token.cancel();
    CancelledToken { token }
}

} // verus!

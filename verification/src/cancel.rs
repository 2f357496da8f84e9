//! Asking whether a request was cancelled.

use cancellation::CancellationToken;
use vstd::prelude::*;

verus! {

/// A handle on the flag that tells whether a request was cancelled.
#[verifier::external_type_specification]
#[verifier::external_body]
pub struct ExCancellationToken(CancellationToken);

/// `CancellationToken::is_canceled`: whether cancellation has been asked for
/// by now. The answer may change from one call to the next, so nothing is
/// stated of it.
#[verifier::external_body]
pub(crate) fn is_canceled(token: &CancellationToken) -> bool {
    token.is_canceled()
}

} // verus!

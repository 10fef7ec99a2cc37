use vstd::prelude::*;
use tokio_util::sync::CancellationToken;

verus! {

#[verifier::external_type_specification]
#[verifier::external_body]
pub struct ExCancellationToken(CancellationToken);

/// Relies on tokio_util's `CancellationToken::new`: a token of its own, not
/// shared with any earlier one.
#[verifier::external_body]
pub(crate) fn fresh_token() -> (r: CancellationToken) {
    CancellationToken::new()
}

/// Relies on tokio_util's `CancellationToken::cancel`: marks the token and
/// every clone of it as cancelled.
#[verifier::external_body]
pub(crate) fn cancel_token(t: &CancellationToken) {
    t.cancel()
}

/// Relies on tokio_util's `CancellationToken::clone`: a handle to the same
/// token.
#[verifier::external_body]
pub(crate) fn share_token(t: &CancellationToken) -> (r: CancellationToken) {
    t.clone()
}

} // verus!

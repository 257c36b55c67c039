use vstd::prelude::*;

verus! {

/// A failure reported by the user store.
#[derive(PartialEq, Eq, Structural, Clone, Copy, Debug)]
pub enum StoreError {
    /// The email address is already taken.
    Conflict,
    /// The store could not be reached or failed to answer.
    Unavailable,
}

/// The outcomes of the account flows that are not success.
#[derive(PartialEq, Eq, Structural, Clone, Copy, Debug)]
pub enum AuthError {
    /// Unknown email or wrong password; the two are not told apart.
    InvalidCredentials,
    /// Registration with an email address that is already taken.
    Conflict,
    /// The store failed; a hard failure for the caller.
    StoreUnavailable,
    /// An authenticated-only resource was asked for without an identity.
    Unauthorized,
    /// The credential codec failed (no salt, or a corrupt stored digest).
    Internal,
}

} // verus!

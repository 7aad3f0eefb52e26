//! The closed error taxonomy shared by every component of the library.

use vstd::prelude::*;

verus! {

/// Why a session credential was rejected.
///
/// An expired token is reported as `InvalidSignature`: no distinct "expired"
/// signal is surfaced to callers, so a stale credential is indistinguishable
/// from a forged one.
#[derive(Clone, Copy, Debug, PartialEq, Eq, Structural)]
pub enum AuthError {
    /// The signature did not verify, or the token is expired.
    InvalidSignature,
    /// The username claim is absent or not a string.
    MalformedClaims,
}

/// Error kinds of the library, pattern-matchable for HTTP status mapping.
#[derive(Clone, Copy, Debug, PartialEq, Eq, Structural)]
pub enum Error {
    /// A setup defect: a session expiry that cannot be represented, or a
    /// git working copy without a usable origin remote.
    Config,
    /// A non-conforming response from the GitHub API.
    Upstream,
    /// A bad, expired or malformed session credential.
    Auth(AuthError),
    /// The project exists but the user may not access it.
    PermissionDenied,
    /// The project directory or its git metadata is missing.
    NotFound,
    /// A remote URL that does not name an owner and a repository.
    Parse,
}

} // verus!

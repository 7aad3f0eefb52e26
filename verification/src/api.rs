//! The request and response shapes of the endpoints the library backs.  The
//! surrounding binary serializes mirror copies of these; the library's
//! contracts speak of the bare values.

use vstd::prelude::*;

verus! {

/// The request format for the OAuth endpoint.
pub struct OAuthReq {
    /// The OAuth code received from GitHub's callback.
    pub code: String,
}

/// The response format for the OAuth endpoint.
pub struct OAuthRes {
    /// The freshly issued session token.
    pub token: String,
}

/// The response format for the user profile endpoint.
pub struct ProfileRes {
    /// The verified session token.
    pub token: String,
    /// The username the token proves.
    pub username: String,
}

/// The request format for the environment-variables endpoint.
pub struct EnvVarsReq {
    /// The project directory name to fetch variables for.
    pub project_name: String,
}

/// Repackages a verified credential as a profile response.
pub fn profile_of_auth(auth: &crate::auth::Auth) -> (r: ProfileRes)
    ensures
        r.token@ == auth.jwt@,
        r.username@ == auth.username@,
{
    ProfileRes { token: auth.jwt.clone(), username: auth.username.clone() }
}

} // verus!

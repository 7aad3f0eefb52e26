//! The immutable configuration value passed explicitly into every component;
//! there is no process-wide singleton.

use vstd::prelude::*;

verus! {

/// Environment-derived settings, loaded once at startup.
pub struct EnvVars {
    /// OAuth app client id (public token).
    pub gh_client_id: String,
    /// An org admin's GitHub token, able to read the organization.
    pub gh_org_admin_token: String,
    /// Signing secret for session credentials.
    pub jwt_secret: String,
    /// OAuth app client secret.
    pub gh_client_secret: String,
    /// GitHub organization name.
    pub gh_org_name: String,
    /// Directory in which all the project deployments are stored.
    pub deployments_dir: String,
    /// The port the server listens on.
    pub server_port: i32,
    /// Allowed CORS origins, as a comma-separated list.
    pub cors_allowed_origins: String,
}

impl EnvVars {
    /// Bundles the settings into one immutable configuration value.
    pub fn new(
        gh_client_id: String,
        gh_org_admin_token: String,
        jwt_secret: String,
        gh_client_secret: String,
        gh_org_name: String,
        deployments_dir: String,
        server_port: i32,
        cors_allowed_origins: String,
    ) -> (r: EnvVars)
        ensures
            r.gh_client_id == gh_client_id,
            r.gh_org_admin_token == gh_org_admin_token,
            r.jwt_secret == jwt_secret,
            r.gh_client_secret == gh_client_secret,
            r.gh_org_name == gh_org_name,
            r.deployments_dir == deployments_dir,
            r.server_port == server_port,
            r.cors_allowed_origins == cors_allowed_origins,
    {
        EnvVars {
            gh_client_id,
            gh_org_admin_token,
            jwt_secret,
            gh_client_secret,
            gh_org_name,
            deployments_dir,
            server_port,
            cors_allowed_origins,
        }
    }
}

} // verus!

//! The access resolver: a pure authorization predicate over a repository's
//! owner and a user's collaborator role.  Only the roles `maintain` and
//! `admin` grant access, and only on repositories owned by the configured
//! organization.

use vstd::prelude::*;
use vstd::string::*;

verus! {

/// String equality, stated over the character sequences.
pub fn str_equal(a: &str, b: &str) -> (r: bool)
    ensures
        r == (a@ == b@),
{
    let owned_a = a.to_owned();
    let owned_b = b.to_owned();
    owned_a == owned_b
}

/// The view of an optional role string.
pub open spec fn role_view(role: Option<String>) -> Option<Seq<char>> {
    match role {
        None => None,
        Some(s) => Some(s@),
    }
}

/// Whether a collaborator role grants access: only `maintain` and `admin`
/// do; every other role, and the absence of a role, denies.
pub open spec fn role_grants(role: Option<Seq<char>>) -> bool {
    role == Some("maintain"@) || role == Some("admin"@)
}

/// Decides whether a fetched collaborator role grants access.
pub fn role_grants_access(role: &Option<String>) -> (r: bool)
    ensures
        r == role_grants(role_view(*role)),
{
    match role {
        None => false,
        Some(s) => str_equal(s.as_str(), "maintain") || str_equal(s.as_str(), "admin"),
    }
}

/// The authorization predicate for deployment visibility: granted iff the
/// repository owner is the configured organization and the collaborator
/// role is `maintain` or `admin`.
pub open spec fn access_granted(org: Seq<char>, repo_owner: Seq<char>, role: Option<
    Seq<char>,
>) -> bool {
    repo_owner == org && role_grants(role)
}

/// Resolves access for a user's fetched role on a repository: deployments
/// outside the configured organization are denied regardless of the role.
pub fn resolve_access(org: &str, repo_owner: &str, role: &Option<String>) -> (r: bool)
    ensures
        r == access_granted(org@, repo_owner@, role_view(*role)),
{
    str_equal(repo_owner, org) && role_grants_access(role)
}

/// Access monotonicity law: access is granted exactly when the owner is the
/// organization and the role is `maintain` or `admin`; a foreign owner is
/// denied regardless of the role, and any other role (or no role at all) is
/// denied regardless of the owner.
pub proof fn lemma_access_granted_iff(org: Seq<char>, repo_owner: Seq<char>, role: Option<
    Seq<char>,
>)
    ensures
        access_granted(org, repo_owner, role) <==> (repo_owner == org && (role == Some(
            "maintain"@,
        ) || role == Some("admin"@))),
        repo_owner != org ==> !access_granted(org, repo_owner, role),
        (role matches Some(r) && r != "maintain"@ && r != "admin"@) ==> !access_granted(
            org,
            repo_owner,
            role,
        ),
        role is None ==> !access_granted(org, repo_owner, role),
{
}

} // verus!

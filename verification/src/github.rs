//! Typed interpretation of the GitHub REST responses the library consults,
//! and the request targets it asks the surrounding binary to fetch.

use vstd::prelude::*;
use vstd::string::*;

use crate::errors::Error;

verus! {

/// What extracting a string field from a JSON document returns: a pure
/// function of the document text and the field name.  `None` when the text
/// is not a JSON object with a string value under that field.
pub uninterp spec fn json_str_field(body: Seq<char>, field: Seq<char>) -> Option<Seq<char>>;

/// The view of an optional string at the level `json_str_field` speaks.
pub open spec fn field_view(r: Option<String>) -> Option<Seq<char>> {
    match r {
        None => None,
        Some(s) => Some(s@),
    }
}

/// Relies on serde_json: parses `body` as JSON and hands out the string
/// value of `field` at the top level, if the document is an object holding
/// one.
#[verifier::external_body]
fn json_string_field(body: &str, field: &str) -> (r: Option<String>)
    ensures
        field_view(r) == json_str_field(body@, field@),
{
    let value: serde_json::Value = serde_json::from_str(body).ok()?;
    Some(value.get(field)?.as_str()?.to_string())
}

/// The meaning of a response from the OAuth code-exchange endpoint: a `200`
/// body must carry an `access_token`; anything else is an upstream failure.
pub open spec fn token_exchange_outcome(status: u16, body: Seq<char>) -> Result<Seq<char>, Error> {
    if status == 200 {
        match json_str_field(body, "access_token"@) {
            Some(t) => Ok(t),
            None => Err(Error::Upstream),
        }
    } else {
        Err(Error::Upstream)
    }
}

/// Interprets the OAuth code-exchange response.  The body of a failed
/// exchange is kept out of the result: the caller logs it server-side and
/// never surfaces it to the end user.
pub fn interpret_token_response(status: u16, body: &str) -> (r: Result<String, Error>)
    ensures
        r matches Ok(t) ==> token_exchange_outcome(status, body@) == Ok::<Seq<char>, Error>(t@),
        r matches Err(e) ==> token_exchange_outcome(status, body@) == Err::<Seq<char>, Error>(e),
{
    if status == 200 {
        match json_string_field(body, "access_token") {
            Some(t) => Ok(t),
            None => Err(Error::Upstream),
        }
    } else {
        Err(Error::Upstream)
    }
}

/// The meaning of a response from the authenticated-user endpoint: a `200`
/// body must carry a `login`; anything else is an upstream failure.
pub open spec fn user_lookup_outcome(status: u16, body: Seq<char>) -> Result<Seq<char>, Error> {
    if status == 200 {
        match json_str_field(body, "login"@) {
            Some(l) => Ok(l),
            None => Err(Error::Upstream),
        }
    } else {
        Err(Error::Upstream)
    }
}

/// Interprets the authenticated-user response, recovering the username.
pub fn interpret_user_response(status: u16, body: &str) -> (r: Result<String, Error>)
    ensures
        r matches Ok(l) ==> user_lookup_outcome(status, body@) == Ok::<Seq<char>, Error>(l@),
        r matches Err(e) ==> user_lookup_outcome(status, body@) == Err::<Seq<char>, Error>(e),
{
    if status == 200 {
        match json_string_field(body, "login") {
            Some(l) => Ok(l),
            None => Err(Error::Upstream),
        }
    } else {
        Err(Error::Upstream)
    }
}

/// The meaning of an organization-membership probe: `204` means member,
/// `404` means not a member, `302` means the admin token belongs to a
/// non-member (a configuration defect reported as an upstream failure), and
/// anything else is an upstream failure.
pub open spec fn membership_outcome(status: u16) -> Result<bool, Error> {
    if status == 302 {
        Err(Error::Upstream)
    } else if status == 404 {
        Ok(false)
    } else if status == 204 {
        Ok(true)
    } else {
        Err(Error::Upstream)
    }
}

/// Interprets the organization-membership response status.
pub fn interpret_membership_status(status: u16) -> (r: Result<bool, Error>)
    ensures
        r == membership_outcome(status),
{
    if status == 302 {
        Err(Error::Upstream)
    } else if status == 404 {
        Ok(false)
    } else if status == 204 {
        Ok(true)
    } else {
        Err(Error::Upstream)
    }
}

/// The meaning of a collaborator-permission response: a `200` body carries
/// the role under `role_name`; `404` means the user is not a collaborator
/// at all (not an error, and distinct from an explicit low role); anything
/// else is an upstream failure.
pub open spec fn collaborator_outcome(status: u16, body: Seq<char>) -> Result<
    Option<Seq<char>>,
    Error,
> {
    if status == 200 {
        match json_str_field(body, "role_name"@) {
            Some(role) => Ok(Some(role)),
            None => Err(Error::Upstream),
        }
    } else if status == 404 {
        Ok(None)
    } else {
        Err(Error::Upstream)
    }
}

/// Interprets the collaborator-permission response.
pub fn interpret_collaborator_response(status: u16, body: &str) -> (r: Result<
    Option<String>,
    Error,
>)
    ensures
        r matches Ok(role) ==> collaborator_outcome(status, body@) == Ok::<
            Option<Seq<char>>,
            Error,
        >(field_view(role)),
        r matches Err(e) ==> collaborator_outcome(status, body@) == Err::<
            Option<Seq<char>>,
            Error,
        >(e),
{
    if status == 200 {
        match json_string_field(body, "role_name") {
            Some(role) => Ok(Some(role)),
            None => Err(Error::Upstream),
        }
    } else if status == 404 {
        Ok(None)
    } else {
        Err(Error::Upstream)
    }
}

/// Login gate law: the membership probe's `204` answer, and only it, means
/// the user is a member (the login flow then issues a credential); the
/// `404` answer, and only it, means the user is not a member (the flow
/// yields a clean unauthorized outcome, not an error).
pub proof fn lemma_membership_gate(status: u16)
    ensures
        membership_outcome(status) == Ok::<bool, Error>(true) <==> status == 204,
        membership_outcome(status) == Ok::<bool, Error>(false) <==> status == 404,
{
}

/// The OAuth code-exchange URL for the given app credentials and code.
pub fn oauth_token_url(client_id: &str, client_secret: &str, code: &str) -> (r: String)
    ensures
        r@ == "https://github.com/login/oauth/access_token?client_id="@ + client_id@
            + "&client_secret="@ + client_secret@ + "&code="@ + code@,
{
    let mut url = String::from_str("https://github.com/login/oauth/access_token?client_id=");
    url.append(client_id);
    url.append("&client_secret=");
    url.append(client_secret);
    url.append("&code=");
    url.append(code);
    url
}

/// The full GitHub API URL for a request path.
pub fn api_url(path: &str) -> (r: String)
    ensures
        r@ == "https://api.github.com/"@ + path@,
{
    let mut url = String::from_str("https://api.github.com/");
    url.append(path);
    url
}

/// The API path of the organization-membership probe for a user.
pub fn membership_path(org: &str, username: &str) -> (r: String)
    ensures
        r@ == "orgs/"@ + org@ + "/members/"@ + username@,
{
    let mut path = String::from_str("orgs/");
    path.append(org);
    path.append("/members/");
    path.append(username);
    path
}

/// The API path of the collaborator-permission lookup for a user on a
/// repository.
pub fn collaborator_permission_path(org: &str, repo: &str, username: &str) -> (r: String)
    ensures
        r@ == "repos/"@ + org@ + "/"@ + repo@ + "/collaborators/"@ + username@ + "/permission"@,
{
    let mut path = String::from_str("repos/");
    path.append(org);
    path.append("/");
    path.append(repo);
    path.append("/collaborators/");
    path.append(username);
    path.append("/permission");
    path
}

} // verus!

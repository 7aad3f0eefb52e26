use maintos::errors::Error;
use maintos::github::{
    api_url, collaborator_permission_path, interpret_collaborator_response,
    interpret_membership_status, interpret_token_response, interpret_user_response,
    membership_path, oauth_token_url,
};

#[test]
fn token_response_ok_extracts_access_token() {
    let body = "{\"access_token\":\"gho_abc123\",\"token_type\":\"bearer\"}";
    assert_eq!(interpret_token_response(200, body).unwrap(), "gho_abc123");
}

#[test]
fn token_response_non_200_is_upstream_error() {
    let body = "{\"access_token\":\"gho_abc123\"}";
    assert_eq!(interpret_token_response(401, body).unwrap_err(), Error::Upstream);
    assert_eq!(interpret_token_response(500, "oops").unwrap_err(), Error::Upstream);
}

#[test]
fn token_response_bad_body_is_upstream_error() {
    assert_eq!(interpret_token_response(200, "not json").unwrap_err(), Error::Upstream);
    assert_eq!(interpret_token_response(200, "{}").unwrap_err(), Error::Upstream);
    assert_eq!(
        interpret_token_response(200, "{\"access_token\":5}").unwrap_err(),
        Error::Upstream
    );
}

#[test]
fn user_response_ok_extracts_login() {
    let body = "{\"login\":\"alice\",\"id\":1}";
    assert_eq!(interpret_user_response(200, body).unwrap(), "alice");
}

#[test]
fn user_response_failures_are_upstream_errors() {
    assert_eq!(interpret_user_response(403, "{\"login\":\"alice\"}").unwrap_err(), Error::Upstream);
    assert_eq!(interpret_user_response(200, "[]").unwrap_err(), Error::Upstream);
}

#[test]
fn membership_status_codes() {
    assert_eq!(interpret_membership_status(204).unwrap(), true);
    assert_eq!(interpret_membership_status(404).unwrap(), false);
    assert_eq!(interpret_membership_status(302).unwrap_err(), Error::Upstream);
    assert_eq!(interpret_membership_status(500).unwrap_err(), Error::Upstream);
    assert_eq!(interpret_membership_status(200).unwrap_err(), Error::Upstream);
}

#[test]
fn collaborator_response_ok_extracts_role() {
    let body = "{\"permission\":\"admin\",\"role_name\":\"maintain\"}";
    assert_eq!(interpret_collaborator_response(200, body).unwrap(), Some("maintain".to_string()));
}

#[test]
fn collaborator_response_404_means_no_role() {
    assert_eq!(interpret_collaborator_response(404, "{}").unwrap(), None);
}

#[test]
fn collaborator_response_failures_are_upstream_errors() {
    assert_eq!(interpret_collaborator_response(500, "{}").unwrap_err(), Error::Upstream);
    assert_eq!(interpret_collaborator_response(200, "{}").unwrap_err(), Error::Upstream);
    assert_eq!(interpret_collaborator_response(200, "nope").unwrap_err(), Error::Upstream);
}

#[test]
fn oauth_token_url_format() {
    assert_eq!(
        oauth_token_url("id1", "sec2", "code3"),
        "https://github.com/login/oauth/access_token?client_id=id1&client_secret=sec2&code=code3"
    );
}

#[test]
fn api_url_format() {
    assert_eq!(api_url("user"), "https://api.github.com/user");
}

#[test]
fn membership_path_format() {
    assert_eq!(membership_path("metakgp", "alice"), "orgs/metakgp/members/alice");
}

#[test]
fn collaborator_permission_path_format() {
    assert_eq!(
        collaborator_permission_path("metakgp", "maintos", "alice"),
        "repos/metakgp/maintos/collaborators/alice/permission"
    );
}

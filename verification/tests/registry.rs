use maintos::access::{resolve_access, role_grants_access};
use maintos::errors::Error;
use maintos::registry::{
    authorize_deployment, deployment_candidate, filter_granted, parse_repo_url, project_path,
    select_candidates, Deployment, GitRemote,
};

#[test]
fn parse_repo_url_recovers_owner_and_name() {
    let (owner, name) = parse_repo_url("https://github.com/metakgp/maintos.git").unwrap();
    assert_eq!(owner, "metakgp");
    assert_eq!(name, "maintos.git");
}

#[test]
fn parse_repo_url_ssh_style() {
    let (owner, name) = parse_repo_url("ssh://git@github.com/metakgp/maintos").unwrap();
    assert_eq!(owner, "metakgp");
    assert_eq!(name, "maintos");
}

#[test]
fn parse_repo_url_rejects_non_urls() {
    assert_eq!(parse_repo_url("not a url").unwrap_err(), Error::Parse);
    assert_eq!(parse_repo_url("mailto:alice@example.com").unwrap_err(), Error::Parse);
}

#[test]
fn parse_repo_url_rejects_short_paths() {
    assert_eq!(parse_repo_url("https://github.com/").unwrap_err(), Error::Parse);
    assert_eq!(parse_repo_url("https://github.com/onlyowner").unwrap_err(), Error::Parse);
}

#[test]
fn resolve_access_grants_only_maintain_and_admin_in_org() {
    let maintain = Some("maintain".to_string());
    let admin = Some("admin".to_string());
    assert!(resolve_access("metakgp", "metakgp", &maintain));
    assert!(resolve_access("metakgp", "metakgp", &admin));
    for role in ["none", "read", "triage", "write"] {
        let role = Some(role.to_string());
        assert!(!resolve_access("metakgp", "metakgp", &role));
    }
    assert!(!resolve_access("metakgp", "metakgp", &None));
    // A foreign owner is denied regardless of the role.
    assert!(!resolve_access("metakgp", "other-org", &maintain));
    assert!(!resolve_access("metakgp", "other-org", &admin));
    assert!(!resolve_access("metakgp", "other-org", &None));
}

#[test]
fn role_grants_access_requires_exact_role() {
    assert!(role_grants_access(&Some("maintain".to_string())));
    assert!(role_grants_access(&Some("admin".to_string())));
    assert!(!role_grants_access(&Some("Maintain".to_string())));
    assert!(!role_grants_access(&Some("administrator".to_string())));
    assert!(!role_grants_access(&None));
}

#[test]
fn candidate_missing_repo_is_not_found() {
    let r = deployment_candidate("metakgp", "proj", &GitRemote::Missing);
    assert_eq!(r.unwrap_err(), Error::NotFound);
}

#[test]
fn candidate_without_origin_is_config_error() {
    let r = deployment_candidate("metakgp", "proj", &GitRemote::NoOrigin);
    assert_eq!(r.unwrap_err(), Error::Config);
}

#[test]
fn candidate_with_empty_remote_url_is_config_error() {
    let remote = GitRemote::Origin(String::new());
    let r = deployment_candidate("metakgp", "proj", &remote);
    assert_eq!(r.unwrap_err(), Error::Config);
}

#[test]
fn candidate_with_unparsable_remote_is_parse_error() {
    let remote = GitRemote::Origin("::::".to_string());
    let r = deployment_candidate("metakgp", "proj", &remote);
    assert_eq!(r.unwrap_err(), Error::Parse);
}

#[test]
fn candidate_outside_org_is_permission_denied() {
    let remote = GitRemote::Origin("https://github.com/other-org/proj.git".to_string());
    let r = deployment_candidate("metakgp", "proj", &remote);
    assert_eq!(r.unwrap_err(), Error::PermissionDenied);
}

#[test]
fn candidate_in_org_carries_all_fields() {
    let remote = GitRemote::Origin("https://github.com/metakgp/backend.git".to_string());
    let d = deployment_candidate("metakgp", "my-dir", &remote).unwrap();
    assert_eq!(d.name, "my-dir");
    assert_eq!(d.repo_url, "https://github.com/metakgp/backend.git");
    assert_eq!(d.repo_owner, "metakgp");
    assert_eq!(d.repo_name, "backend.git");
}

#[test]
fn authorize_deployment_by_role() {
    let d = Deployment {
        name: "proj".to_string(),
        repo_url: "https://github.com/metakgp/proj".to_string(),
        repo_owner: "metakgp".to_string(),
        repo_name: "proj".to_string(),
    };
    let granted = authorize_deployment(d.duplicate(), &Some("admin".to_string())).unwrap();
    assert_eq!(granted.name, "proj");
    let denied = authorize_deployment(d, &Some("write".to_string()));
    assert_eq!(denied.unwrap_err(), Error::PermissionDenied);
}

#[test]
fn select_candidates_skips_foreign_and_missing() {
    let entries = vec![
        (
            "in-org".to_string(),
            GitRemote::Origin("https://github.com/metakgp/in-org".to_string()),
        ),
        (
            "foreign".to_string(),
            GitRemote::Origin("https://github.com/other-org/foreign".to_string()),
        ),
        ("no-repo".to_string(), GitRemote::Missing),
        (
            "second".to_string(),
            GitRemote::Origin("https://github.com/metakgp/second".to_string()),
        ),
    ];
    let ds = select_candidates("metakgp", &entries).unwrap();
    assert_eq!(ds.len(), 2);
    assert_eq!(ds[0].name, "in-org");
    assert_eq!(ds[1].name, "second");
}

#[test]
fn select_candidates_fails_whole_listing_on_missing_origin() {
    let entries = vec![
        (
            "fine".to_string(),
            GitRemote::Origin("https://github.com/metakgp/fine".to_string()),
        ),
        ("broken".to_string(), GitRemote::NoOrigin),
    ];
    assert_eq!(select_candidates("metakgp", &entries).unwrap_err(), Error::Config);
}

#[test]
fn select_candidates_fails_whole_listing_on_bad_remote_url() {
    let entries = vec![
        (
            "fine".to_string(),
            GitRemote::Origin("https://github.com/metakgp/fine".to_string()),
        ),
        ("mangled".to_string(), GitRemote::Origin("::::".to_string())),
    ];
    assert_eq!(select_candidates("metakgp", &entries).unwrap_err(), Error::Parse);
}

#[test]
fn listing_filter_keeps_exactly_granted_subset() {
    // Deployments with owners {org, other-org} and roles {maintain, write,
    // absent}: exactly the org-owned, maintain-or-admin subset remains.
    let entries = vec![
        (
            "a".to_string(),
            GitRemote::Origin("https://github.com/metakgp/a".to_string()),
        ),
        (
            "b".to_string(),
            GitRemote::Origin("https://github.com/other-org/b".to_string()),
        ),
        (
            "c".to_string(),
            GitRemote::Origin("https://github.com/metakgp/c".to_string()),
        ),
        (
            "d".to_string(),
            GitRemote::Origin("https://github.com/metakgp/d".to_string()),
        ),
    ];
    let cands = select_candidates("metakgp", &entries).unwrap();
    assert_eq!(cands.len(), 3);
    // Fetched roles for a, c, d respectively.
    let roles = vec![Some("maintain".to_string()), Some("write".to_string()), None];
    let visible = filter_granted(&cands, &roles);
    assert_eq!(visible.len(), 1);
    assert_eq!(visible[0].name, "a");
    assert_eq!(visible[0].repo_owner, "metakgp");
}

#[test]
fn filter_granted_keeps_order() {
    let make = |n: &str| Deployment {
        name: n.to_string(),
        repo_url: format!("https://github.com/metakgp/{}", n),
        repo_owner: "metakgp".to_string(),
        repo_name: n.to_string(),
    };
    let cands = vec![make("one"), make("two"), make("three")];
    let roles = vec![
        Some("admin".to_string()),
        Some("read".to_string()),
        Some("maintain".to_string()),
    ];
    let visible = filter_granted(&cands, &roles);
    assert_eq!(visible.len(), 2);
    assert_eq!(visible[0].name, "one");
    assert_eq!(visible[1].name, "three");
}

#[test]
fn project_path_format() {
    assert_eq!(project_path("/deployments", "proj"), "/deployments/proj");
}

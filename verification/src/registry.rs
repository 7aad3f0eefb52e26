//! The deployment registry: correlates scanned project directories with
//! their git remotes, recovers the owning repository from the remote URL,
//! and gates visibility by the resolved collaborator role.

use vstd::prelude::*;
use vstd::string::*;

use crate::access::{role_grants, role_view, str_equal};
use crate::errors::Error;

verus! {

/// What the git metadata of a project directory yielded.
pub enum GitRemote {
    /// The directory is missing or holds no git working copy.
    Missing,
    /// A git working copy without a usable origin remote URL.
    NoOrigin,
    /// The URL of the origin remote.
    Origin(String),
}

/// All the information for a deployed repository.  The directory name need
/// not equal the repository name.
#[derive(Debug)]
pub struct Deployment {
    pub name: String,
    pub repo_url: String,
    pub repo_owner: String,
    pub repo_name: String,
}

/// The mathematical content of a `Deployment`.
pub ghost struct DeploymentView {
    pub name: Seq<char>,
    pub repo_url: Seq<char>,
    pub repo_owner: Seq<char>,
    pub repo_name: Seq<char>,
}

impl View for Deployment {
    type V = DeploymentView;

    open spec fn view(&self) -> DeploymentView {
        DeploymentView {
            name: self.name@,
            repo_url: self.repo_url@,
            repo_owner: self.repo_owner@,
            repo_name: self.repo_name@,
        }
    }
}

impl Deployment {
    /// A field-for-field copy.
    pub fn duplicate(&self) -> (r: Deployment)
        ensures
            r@ == self@,
    {
        Deployment {
            name: self.name.clone(),
            repo_url: self.repo_url.clone(),
            repo_owner: self.repo_owner.clone(),
            repo_name: self.repo_name.clone(),
        }
    }
}

/// The views of a sequence of deployments.
pub open spec fn deployments_view(ds: Seq<Deployment>) -> Seq<DeploymentView> {
    ds.map_values(|d: Deployment| d@)
}

/// What URL parsing returns: a pure function of the URL text.  `None` when
/// the text does not parse as an absolute URL, or the URL cannot have path
/// segments.
pub uninterp spec fn url_segments(url: Seq<char>) -> Option<Seq<Seq<char>>>;

/// The view of an exec segment list at the level `url_segments` speaks.
pub open spec fn segments_view(r: Option<Vec<String>>) -> Option<Seq<Seq<char>>> {
    match r {
        None => None,
        Some(v) => Some(v.deep_view()),
    }
}

/// Relies on `reqwest::Url` (the url crate): parses an absolute URL and
/// hands out its path segments.
#[verifier::external_body]
fn url_path_segments(url: &str) -> (r: Option<Vec<String>>)
    ensures
        segments_view(r) == url_segments(url@),
{
    let parsed = reqwest::Url::parse(url).ok()?;
    Some(parsed.path_segments()?.map(|s| s.to_string()).collect())
}

/// The owner and repository named by a remote URL's first two path
/// segments; URLs lacking two segments do not identify a repository.
pub open spec fn repo_of_url(url: Seq<char>) -> Result<(Seq<char>, Seq<char>), Error> {
    match url_segments(url) {
        None => Err(Error::Parse),
        Some(segs) => if segs.len() >= 2 {
            Ok((segs[0], segs[1]))
        } else {
            Err(Error::Parse)
        },
    }
}

/// Recovers `(owner, repository)` from a remote URL.
pub fn parse_repo_url(url: &str) -> (r: Result<(String, String), Error>)
    ensures
        r matches Ok(p) ==> repo_of_url(url@) == Ok::<(Seq<char>, Seq<char>), Error>(
            (p.0@, p.1@),
        ),
        r matches Err(e) ==> repo_of_url(url@) == Err::<(Seq<char>, Seq<char>), Error>(e),
{
    match url_path_segments(url) {
        None => Err(Error::Parse),
        Some(mut segs) => if segs.len() >= 2 {
            let repo_name = segs.remove(1);
            let owner = segs.remove(0);
            Ok((owner, repo_name))
        } else {
            Err(Error::Parse)
        },
    }
}

/// Relies on git2's `Repository::open`, `Repository::find_remote` and
/// `Remote::url`: probes the working copy at `path` for the URL of the
/// named remote.  The answer depends on what is on disk, so nothing is
/// assumed of it; callers handle every variant.  git2 hands back the empty
/// string for a remote whose URL is unset, so `Origin` may carry it; the
/// candidate logic rejects that as a configuration defect.
#[verifier::external_body]
fn git_remote_of(path: &str, remote_name: &str) -> GitRemote {
    let repo = match git2::Repository::open(path) {
        Ok(r) => r,
        Err(_) => return GitRemote::Missing,
    };
    let remote = match repo.find_remote(remote_name) {
        Ok(r) => r,
        Err(_) => return GitRemote::NoOrigin,
    };
    match remote.url() {
        Ok(u) => GitRemote::Origin(u.to_string()),
        Err(_) => GitRemote::NoOrigin,
    }
}

/// The filesystem path of a project inside the deployments root.
pub fn project_path(root: &str, project_name: &str) -> (r: String)
    ensures
        r@ == root@ + "/"@ + project_name@,
{
    let mut path = String::from_str(root);
    path.append("/");
    path.append(project_name);
    path
}

/// Probes a project's working copy for its origin remote URL.  The result
/// reflects the filesystem at call time; nothing is assumed of it.
pub fn probe_project(root: &str, project_name: &str) -> GitRemote {
    let path = project_path(root, project_name);
    git_remote_of(path.as_str(), "origin")
}

/// The outcome of resolving one project directory against its git remote: a
/// missing working copy is `NotFound`; a working copy without an origin
/// remote — including one whose remote URL is the empty string — is a
/// configuration defect; a repository owned outside the configured
/// organization is never visible.
pub open spec fn candidate_outcome(
    org: Seq<char>,
    project_name: Seq<char>,
    remote: GitRemote,
) -> Result<DeploymentView, Error> {
    match remote {
        GitRemote::Missing => Err(Error::NotFound),
        GitRemote::NoOrigin => Err(Error::Config),
        GitRemote::Origin(url) => if url@.len() == 0 {
            Err(Error::Config)
        } else {
            match repo_of_url(url@) {
                Err(e) => Err(e),
                Ok(p) => if p.0 == org {
                    Ok(
                        DeploymentView {
                            name: project_name,
                            repo_url: url@,
                            repo_owner: p.0,
                            repo_name: p.1,
                        },
                    )
                } else {
                    Err(Error::PermissionDenied)
                },
            }
        },
    }
}

/// Resolves one project directory against its probed git remote.
pub fn deployment_candidate(org: &str, project_name: &str, remote: &GitRemote) -> (r: Result<
    Deployment,
    Error,
>)
    ensures
        r matches Ok(d) ==> candidate_outcome(org@, project_name@, *remote) == Ok::<
            DeploymentView,
            Error,
        >(d@),
        r matches Err(e) ==> candidate_outcome(org@, project_name@, *remote) == Err::<
            DeploymentView,
            Error,
        >(e),
{
    match remote {
        GitRemote::Missing => Err(Error::NotFound),
        GitRemote::NoOrigin => Err(Error::Config),
        GitRemote::Origin(url) => if url.as_str().is_empty() {
            Err(Error::Config)
        } else {
            match parse_repo_url(url.as_str()) {
                Err(e) => Err(e),
                Ok((owner, repo_name)) => if str_equal(owner.as_str(), org) {
                    Ok(
                        Deployment {
                            name: project_name.to_owned(),
                            repo_url: url.clone(),
                            repo_owner: owner,
                            repo_name,
                        },
                    )
                } else {
                    Err(Error::PermissionDenied)
                },
            }
        },
    }
}

/// Ownership law: every deployment a candidate resolution yields is owned
/// by the configured organization and carries the directory's name.
pub proof fn lemma_candidate_owner(
    org: Seq<char>,
    project_name: Seq<char>,
    remote: GitRemote,
    d: DeploymentView,
)
    requires
        candidate_outcome(org, project_name, remote) == Ok::<DeploymentView, Error>(d),
    ensures
        d.repo_owner == org,
        d.name == project_name,
        remote matches GitRemote::Origin(url) && repo_of_url(url@) == Ok::<
            (Seq<char>, Seq<char>),
            Error,
        >((d.repo_owner, d.repo_name)),
{
}

/// The outcome of scanning a whole directory listing: entries without a git
/// working copy are silently skipped, as are repositories owned outside the
/// organization; a working copy without an origin remote, or an unparsable
/// remote URL, fails the whole listing.
pub open spec fn listing_outcome(org: Seq<char>, entries: Seq<(String, GitRemote)>) -> Result<
    Seq<DeploymentView>,
    Error,
>
    decreases entries.len(),
{
    if entries.len() == 0 {
        Ok(Seq::empty())
    } else {
        let rest = listing_outcome(org, entries.drop_first());
        match candidate_outcome(org, entries[0].0@, entries[0].1) {
            Ok(d) => match rest {
                Ok(tail) => Ok(seq![d] + tail),
                Err(e) => Err(e),
            },
            Err(Error::NotFound) => rest,
            Err(Error::PermissionDenied) => rest,
            Err(e) => Err(e),
        }
    }
}

/// Enumerates the visible candidates among scanned directory entries, in
/// directory-listing order.
pub fn select_candidates(org: &str, entries: &Vec<(String, GitRemote)>) -> (r: Result<
    Vec<Deployment>,
    Error,
>)
    ensures
        r matches Ok(ds) ==> listing_outcome(org@, entries@) == Ok::<Seq<DeploymentView>, Error>(
            deployments_view(ds@),
        ),
        r matches Err(e) ==> listing_outcome(org@, entries@) == Err::<Seq<DeploymentView>, Error>(
            e,
        ),
{
    let mut out: Vec<Deployment> = Vec::new();
    let mut i: usize = 0;
    proof {
        assert(entries@.skip(0int) =~= entries@);
        match listing_outcome(org@, entries@) {
            Ok(tail) => {
                assert(deployments_view(out@) + tail =~= tail);
            },
            Err(_) => {},
        }
    }
    while i < entries.len()
        invariant
            i <= entries@.len(),
            listing_outcome(org@, entries@) == (match listing_outcome(
                org@,
                entries@.skip(i as int),
            ) {
                Ok(tail) => Ok::<Seq<DeploymentView>, Error>(deployments_view(out@) + tail),
                Err(e) => Err::<Seq<DeploymentView>, Error>(e),
            }),
        decreases entries@.len() - i,
    {
        proof {
            assert(entries@.skip(i as int).len() > 0);
            assert(entries@.skip(i as int)[0] == entries@[i as int]);
            assert(entries@.skip(i as int).drop_first() =~= entries@.skip(i as int + 1));
        }
        let entry = &entries[i];
        let ghost out_old = out@;
        match deployment_candidate(org, entry.0.as_str(), &entry.1) {
            Ok(d) => {
                out.push(d);
                proof {
                    assert(deployments_view(out@) =~= deployments_view(out_old) + seq![d@]);
                    match listing_outcome(org@, entries@.skip(i as int + 1)) {
                        Ok(tail) => {
                            assert(deployments_view(out_old) + (seq![d@] + tail)
                                =~= deployments_view(out@) + tail);
                        },
                        Err(_) => {},
                    }
                }
            },
            Err(Error::NotFound) => {},
            Err(Error::PermissionDenied) => {},
            Err(e) => {
                return Err(e);
            },
        }
        i += 1;
    }
    proof {
        assert(entries@.skip(entries@.len() as int).len() == 0);
        assert(deployments_view(out@) + Seq::<DeploymentView>::empty() =~= deployments_view(out@));
    }
    Ok(out)
}

/// Keeps a candidate only when the fetched collaborator role grants access;
/// otherwise the caller sees a permission denial.
pub fn authorize_deployment(d: Deployment, role: &Option<String>) -> (r: Result<Deployment, Error>)
    ensures
        role_grants(role_view(*role)) ==> (r matches Ok(out) && out == d),
        !role_grants(role_view(*role)) ==> (r matches Err(e) && e == Error::PermissionDenied),
{
    if crate::access::role_grants_access(role) {
        Ok(d)
    } else {
        Err(Error::PermissionDenied)
    }
}

/// The role-filtered view of paired candidates and fetched roles.
pub open spec fn granted_view(cands: Seq<Deployment>, roles: Seq<Option<String>>) -> Seq<
    DeploymentView,
>
    decreases cands.len(),
{
    if cands.len() == 0 || roles.len() == 0 {
        Seq::empty()
    } else {
        let rest = granted_view(cands.drop_first(), roles.drop_first());
        if role_grants(role_view(roles[0])) {
            seq![cands[0]@] + rest
        } else {
            rest
        }
    }
}

/// Filters candidates by their fetched collaborator roles, pairwise, keeping
/// directory-listing order.
pub fn filter_granted(cands: &Vec<Deployment>, roles: &Vec<Option<String>>) -> (r: Vec<Deployment>)
    requires
        cands@.len() == roles@.len(),
    ensures
        deployments_view(r@) == granted_view(cands@, roles@),
{
    let mut out: Vec<Deployment> = Vec::new();
    let mut i: usize = 0;
    proof {
        assert(cands@.skip(0int) =~= cands@);
        assert(roles@.skip(0int) =~= roles@);
        assert(deployments_view(out@) + granted_view(cands@, roles@) =~= granted_view(
            cands@,
            roles@,
        ));
    }
    while i < cands.len()
        invariant
            i <= cands@.len(),
            cands@.len() == roles@.len(),
            granted_view(cands@, roles@) == deployments_view(out@) + granted_view(
                cands@.skip(i as int),
                roles@.skip(i as int),
            ),
        decreases cands@.len() - i,
    {
        proof {
            assert(cands@.skip(i as int)[0] == cands@[i as int]);
            assert(roles@.skip(i as int)[0] == roles@[i as int]);
            assert(cands@.skip(i as int).drop_first() =~= cands@.skip(i as int + 1));
            assert(roles@.skip(i as int).drop_first() =~= roles@.skip(i as int + 1));
        }
        let ghost out_old = out@;
        if crate::access::role_grants_access(&roles[i]) {
            let d = cands[i].duplicate();
            out.push(d);
            proof {
                assert(deployments_view(out@) =~= deployments_view(out_old) + seq![d@]);
                assert(deployments_view(out_old) + (seq![d@] + granted_view(
                    cands@.skip(i as int + 1),
                    roles@.skip(i as int + 1),
                )) =~= deployments_view(out@) + granted_view(
                    cands@.skip(i as int + 1),
                    roles@.skip(i as int + 1),
                ));
            }
        }
        i += 1;
    }
    proof {
        assert(granted_view(cands@.skip(cands@.len() as int), roles@.skip(roles@.len() as int))
            =~= Seq::<DeploymentView>::empty());
        assert(deployments_view(out@) + Seq::<DeploymentView>::empty() =~= deployments_view(out@));
    }
    out
}

/// Listing filter law, first half: a deployment view is in the role-filtered
/// list exactly when it is one of the candidates and its paired role grants
/// access.
pub proof fn lemma_granted_membership(
    cands: Seq<Deployment>,
    roles: Seq<Option<String>>,
    d: DeploymentView,
)
    requires
        cands.len() == roles.len(),
    ensures
        granted_view(cands, roles).contains(d) <==> exists|i: int|
            0 <= i < cands.len() && #[trigger] cands[i]@ == d && role_grants(role_view(roles[i])),
    decreases cands.len(),
{
    if cands.len() == 0 {
        assert(granted_view(cands, roles) =~= Seq::<DeploymentView>::empty());
        assert(!granted_view(cands, roles).contains(d));
    } else {
        lemma_granted_membership(cands.drop_first(), roles.drop_first(), d);
        let rest = granted_view(cands.drop_first(), roles.drop_first());
        if role_grants(role_view(roles[0])) {
            assert(granted_view(cands, roles) =~= seq![cands[0]@] + rest);
            if granted_view(cands, roles).contains(d) {
                if cands[0]@ == d {
                    assert(cands[0]@ == d && role_grants(role_view(roles[0])));
                } else {
                    let j = choose|j: int|
                        0 <= j < granted_view(cands, roles).len() && granted_view(cands, roles)[j]
                            == d;
                    assert(rest[j - 1] == d);
                    assert(rest.contains(d));
                    let k = choose|k: int|
                        0 <= k < cands.drop_first().len() && #[trigger] cands.drop_first()[k]@ == d
                            && role_grants(role_view(roles.drop_first()[k]));
                    assert(cands[k + 1]@ == d && role_grants(role_view(roles[k + 1])));
                }
            }
            if exists|i: int|
                0 <= i < cands.len() && #[trigger] cands[i]@ == d && role_grants(
                    role_view(roles[i]),
                ) {
                let i = choose|i: int|
                    0 <= i < cands.len() && #[trigger] cands[i]@ == d && role_grants(
                        role_view(roles[i]),
                    );
                if i == 0 {
                    assert(granted_view(cands, roles)[0] == d);
                } else {
                    assert(cands.drop_first()[i - 1]@ == d && role_grants(
                        role_view(roles.drop_first()[i - 1]),
                    ));
                    assert(rest.contains(d));
                    let j = choose|j: int| 0 <= j < rest.len() && rest[j] == d;
                    assert(granted_view(cands, roles)[j + 1] == d);
                }
            }
        } else {
            assert(granted_view(cands, roles) =~= rest);
            if granted_view(cands, roles).contains(d) {
                let k = choose|k: int|
                    0 <= k < cands.drop_first().len() && #[trigger] cands.drop_first()[k]@ == d
                        && role_grants(role_view(roles.drop_first()[k]));
                assert(cands[k + 1]@ == d && role_grants(role_view(roles[k + 1])));
            }
            if exists|i: int|
                0 <= i < cands.len() && #[trigger] cands[i]@ == d && role_grants(
                    role_view(roles[i]),
                ) {
                let i = choose|i: int|
                    0 <= i < cands.len() && #[trigger] cands[i]@ == d && role_grants(
                        role_view(roles[i]),
                    );
                assert(i != 0);
                assert(cands.drop_first()[i - 1]@ == d && role_grants(
                    role_view(roles.drop_first()[i - 1]),
                ));
            }
        }
    }
}

/// Listing filter law, second half: a deployment view is in a successful
/// scan's candidate list exactly when some scanned directory resolves to it;
/// by `lemma_candidate_owner` every such view is owned by the organization.
pub proof fn lemma_listing_membership(
    org: Seq<char>,
    entries: Seq<(String, GitRemote)>,
    ds: Seq<DeploymentView>,
    d: DeploymentView,
)
    requires
        listing_outcome(org, entries) == Ok::<Seq<DeploymentView>, Error>(ds),
    ensures
        ds.contains(d) <==> exists|i: int|
            0 <= i < entries.len() && #[trigger] candidate_outcome(
                org,
                entries[i].0@,
                entries[i].1,
            ) == Ok::<DeploymentView, Error>(d),
    decreases entries.len(),
{
    if entries.len() == 0 {
        assert(ds =~= Seq::<DeploymentView>::empty());
    } else {
        let rest_outcome = listing_outcome(org, entries.drop_first());
        let head = candidate_outcome(org, entries[0].0@, entries[0].1);
        let tail = rest_outcome->Ok_0;
        assert(rest_outcome is Ok);
        lemma_listing_membership(org, entries.drop_first(), tail, d);
        match head {
            Ok(h) => {
                assert(ds =~= seq![h] + tail);
                if ds.contains(d) {
                    if h == d {
                        assert(candidate_outcome(org, entries[0].0@, entries[0].1) == Ok::<
                            DeploymentView,
                            Error,
                        >(d));
                    } else {
                        let j = choose|j: int| 0 <= j < ds.len() && ds[j] == d;
                        assert(tail[j - 1] == d);
                        assert(tail.contains(d));
                        let k = choose|k: int|
                            0 <= k < entries.drop_first().len() && #[trigger] candidate_outcome(
                                org,
                                entries.drop_first()[k].0@,
                                entries.drop_first()[k].1,
                            ) == Ok::<DeploymentView, Error>(d);
                        assert(entries[k + 1] == entries.drop_first()[k]);
                        assert(candidate_outcome(org, entries[k + 1].0@, entries[k + 1].1) == Ok::<
                            DeploymentView,
                            Error,
                        >(d));
                    }
                }
                if exists|i: int|
                    0 <= i < entries.len() && #[trigger] candidate_outcome(
                        org,
                        entries[i].0@,
                        entries[i].1,
                    ) == Ok::<DeploymentView, Error>(d) {
                    let i = choose|i: int|
                        0 <= i < entries.len() && #[trigger] candidate_outcome(
                            org,
                            entries[i].0@,
                            entries[i].1,
                        ) == Ok::<DeploymentView, Error>(d);
                    if i == 0 {
                        assert(ds[0] == d);
                    } else {
                        assert(entries.drop_first()[i - 1] == entries[i]);
                        assert(tail.contains(d));
                        let j = choose|j: int| 0 <= j < tail.len() && tail[j] == d;
                        assert(ds[j + 1] == d);
                    }
                }
            },
            Err(_) => {
                assert(ds =~= tail);
                if ds.contains(d) {
                    let k = choose|k: int|
                        0 <= k < entries.drop_first().len() && #[trigger] candidate_outcome(
                            org,
                            entries.drop_first()[k].0@,
                            entries.drop_first()[k].1,
                        ) == Ok::<DeploymentView, Error>(d);
                    assert(entries[k + 1] == entries.drop_first()[k]);
                }
                if exists|i: int|
                    0 <= i < entries.len() && #[trigger] candidate_outcome(
                        org,
                        entries[i].0@,
                        entries[i].1,
                    ) == Ok::<DeploymentView, Error>(d) {
                    let i = choose|i: int|
                        0 <= i < entries.len() && #[trigger] candidate_outcome(
                            org,
                            entries[i].0@,
                            entries[i].1,
                        ) == Ok::<DeploymentView, Error>(d);
                    assert(i != 0);
                    assert(entries.drop_first()[i - 1] == entries[i]);
                    assert(tail.contains(d));
                }
            },
        }
    }
}

/// Listing filter law, composed: after a successful scan of the directory
/// entries and a pairwise role filter over the resulting candidates, a
/// deployment is visible exactly when it is a candidate whose paired role
/// grants access — and every visible deployment is owned by the configured
/// organization and resolves from one of the scanned directories.
pub proof fn lemma_visible_deployments(
    org: Seq<char>,
    entries: Seq<(String, GitRemote)>,
    cands: Seq<Deployment>,
    roles: Seq<Option<String>>,
    d: DeploymentView,
)
    requires
        listing_outcome(org, entries) == Ok::<Seq<DeploymentView>, Error>(deployments_view(cands)),
        cands.len() == roles.len(),
    ensures
        granted_view(cands, roles).contains(d) <==> exists|i: int|
            0 <= i < cands.len() && #[trigger] cands[i]@ == d && role_grants(role_view(roles[i])),
        granted_view(cands, roles).contains(d) ==> d.repo_owner == org,
        granted_view(cands, roles).contains(d) ==> exists|j: int|
            0 <= j < entries.len() && #[trigger] candidate_outcome(
                org,
                entries[j].0@,
                entries[j].1,
            ) == Ok::<DeploymentView, Error>(d),
{
    lemma_granted_membership(cands, roles, d);
    lemma_listing_membership(org, entries, deployments_view(cands), d);
    if granted_view(cands, roles).contains(d) {
        let i = choose|i: int|
            0 <= i < cands.len() && #[trigger] cands[i]@ == d && role_grants(role_view(roles[i]));
        assert(deployments_view(cands)[i] == d);
        assert(deployments_view(cands).contains(d));
        let j = choose|j: int|
            0 <= j < entries.len() && #[trigger] candidate_outcome(
                org,
                entries[j].0@,
                entries[j].1,
            ) == Ok::<DeploymentView, Error>(d);
        lemma_candidate_owner(org, entries[j].0@, entries[j].1, d);
    }
}

} // verus!

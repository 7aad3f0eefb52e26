//! Per-project settings, derived fresh on every request from an optional
//! marker file at the project root.

use vstd::prelude::*;
use vstd::string::*;

verus! {

/// What std's `str::trim` returns: a function of the character sequence
/// alone.
pub uninterp spec fn trimmed(s: Seq<char>) -> Seq<char>;

/// Relies on std's `str::trim`: removes leading and trailing whitespace.
#[verifier::external_body]
fn trim_str(s: &str) -> (r: String)
    ensures
        r@ == trimmed(s@),
{
    s.trim().to_string()
}

/// Settings for a project.
pub struct ProjectSettings {
    /// Subdirectory which is deployed, relative to the project root.
    pub deploy_dir: String,
}

/// Resolves the project settings from the contents of the optional marker
/// file: absence yields the default deploy directory `"."`, and contents are
/// trimmed of surrounding whitespace.  This never fails; a missing or
/// unreadable file is only a default, not an error.
pub fn get_project_settings(maint_contents: Option<&str>) -> (r: ProjectSettings)
    ensures
        maint_contents matches Some(s) ==> r.deploy_dir@ == trimmed(s@),
        maint_contents is None ==> r.deploy_dir@ == "."@,
{
    match maint_contents {
        Some(s) => ProjectSettings { deploy_dir: trim_str(s) },
        None => ProjectSettings { deploy_dir: String::from_str(".") },
    }
}

/// The filesystem path of a project's settings marker file.
pub fn maint_file_path(root: &str, project_name: &str) -> (r: String)
    ensures
        r@ == root@ + "/"@ + project_name@ + "/.maint"@,
{
    let mut path = String::from_str(root);
    path.append("/");
    path.append(project_name);
    path.append("/.maint");
    path
}

/// The filesystem path of the environment file inside a project's deploy
/// directory.
pub fn env_file_path(root: &str, project_name: &str, deploy_dir: &str) -> (r: String)
    ensures
        r@ == root@ + "/"@ + project_name@ + "/"@ + deploy_dir@ + "/.env"@,
{
    let mut path = String::from_str(root);
    path.append("/");
    path.append(project_name);
    path.append("/");
    path.append(deploy_dir);
    path.append("/.env");
    path
}

} // verus!

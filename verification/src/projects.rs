//! Project operations: resolution, creation, deletion, push mirrors
//! and private forks.  The decisions and the exact request shapes live
//! here; the HTTP and subprocess work is performed outside and judged
//! by the status contracts below.

use crate::encode::{encode_project_id, percent_encoded, spec_encode_project_ref, urlencode};
use crate::error::GlabuError;
use crate::models::{
    strings_view, ProjectCreatePayload, ProjectPushMirrorPayload, ProjectVisibility,
};
use crate::paths::{project_path, spec_project_path};
use crate::query::{pairs_view, spec_bool_value, bool_value};
use crate::status::{is_success_status, spec_is_success};
use vstd::prelude::*;

verus! {

/// Whether a reference contains a `/` (and therefore carries a
/// namespace prefix already).
pub open spec fn spec_contains_slash(s: Seq<char>) -> bool {
    exists|i: int| 0 <= i < s.len() && s[i] == '/'
}

/// Returns whether `s` contains a `/`.
pub fn contains_slash(s: &str) -> (r: bool)
    ensures
        r == spec_contains_slash(s@),
{
    let n = s.unicode_len();
    let mut i: usize = 0;
    while i < n
        invariant
            i <= n,
            n == s@.len(),
            forall|j: int| 0 <= j < i ==> s@[j] != '/',
        decreases n - i,
    {
        if s.get_char(i) == '/' {
            return true;
        }
        i = i + 1;
    }
    false
}

/// Joins a namespace and a project name: `{namespace}/{name}`.
pub fn full_project_name(namespace: &str, name: &str) -> (r: String)
    ensures
        r@ == namespace@ + "/"@ + name@,
{
    let mut out = String::from_str(namespace);
    out.append("/");
    out.append(name);
    out
}

/// Qualifies a project name: one that already carries a `/` is kept,
/// anything else is placed under the given username.
pub fn qualified_project_name(name: &str, username: &str) -> (r: String)
    ensures
        spec_contains_slash(name@) ==> r@ == name@,
        !spec_contains_slash(name@) ==> r@ == username@ + "/"@ + name@,
{
    if contains_slash(name) {
        String::from_str(name)
    } else {
        full_project_name(username, name)
    }
}

/// The lookup path of a project reference: the reference with its
/// `/` characters percent-encoded, under `/projects/`.
pub fn project_lookup_path(project: &str) -> (r: String)
    ensures
        r@ == spec_project_path(spec_encode_project_ref(project@)),
{
    let encoded = encode_project_id(project);
    project_path(encoded.as_str())
}

/// Judges a project lookup answer: 404 is the distinct `NotFound`
/// miss, any other non-2xx answer surfaces the body as error detail.
pub fn project_lookup_outcome(status: u16, body: String) -> (r: Result<(), GlabuError>)
    ensures
        r is Ok <==> spec_is_success(status),
        r matches Err(e) ==> e == (if status == 404 {
            GlabuError::NotFound
        } else {
            GlabuError::RequestFailed { status, body }
        }),
{
    if is_success_status(status) {
        Ok(())
    } else if status == 404 {
        Err(GlabuError::NotFound)
    } else {
        Err(GlabuError::RequestFailed { status, body })
    }
}

/// The query of a project search: the term, and whether only owned
/// projects are searched.
pub fn project_search_query(term: &str, owned: bool) -> (r: Vec<(String, String)>)
    ensures
        pairs_view(r@) =~= seq![("search"@, term@), ("owned"@, spec_bool_value(owned))],
{
    let mut out: Vec<(String, String)> = Vec::new();
    out.push((String::from_str("search"), String::from_str(term)));
    out.push((String::from_str("owned"), String::from_str(bool_value(owned))));
    out
}

/// Configuration for creating a project.
#[derive(Debug)]
pub struct ProjectCreate {
    pub name: String,
    pub namespace_id: Option<u64>,
    pub description: Option<String>,
    pub visibility: ProjectVisibility,
    pub initialize_with_readme: Option<bool>,
}

impl ProjectCreate {
    /// A fresh creation request: private, empty description, no
    /// README, in the caller's own namespace.
    pub fn new(name: &str) -> (r: Self)
        ensures
            r.name@ == name@,
            r.namespace_id is None,
            r.description matches Some(d) && d@ == Seq::<char>::empty(),
            r.visibility == ProjectVisibility::Private,
            r.initialize_with_readme == Some(false),
    {
        proof {
            reveal_strlit("");
        }
        ProjectCreate {
            name: String::from_str(name),
            namespace_id: None,
            description: Some(String::from_str("")),
            visibility: ProjectVisibility::Private,
            initialize_with_readme: Some(false),
        }
    }

    /// Sets the description.
    pub fn description(self, description: &str) -> (r: Self)
        ensures
            r.description matches Some(d) && d@ == description@,
            r.name == self.name,
            r.namespace_id == self.namespace_id,
            r.visibility == self.visibility,
            r.initialize_with_readme == self.initialize_with_readme,
    {
        ProjectCreate { description: Some(String::from_str(description)), ..self }
    }

    /// Sets the visibility.
    pub fn visibility(self, visibility: ProjectVisibility) -> (r: Self)
        ensures
            r == (ProjectCreate { visibility, ..self }),
    {
        ProjectCreate { visibility, ..self }
    }

    /// Sets the namespace (group) the project is created under.
    pub fn namespace_id(self, namespace_id: u64) -> (r: Self)
        ensures
            r == (ProjectCreate { namespace_id: Some(namespace_id), ..self }),
    {
        ProjectCreate { namespace_id: Some(namespace_id), ..self }
    }

    /// Sets whether the project starts with a README.
    pub fn initialize_with_readme(self, initialize_with_readme: bool) -> (r: Self)
        ensures
            r == (ProjectCreate { initialize_with_readme: Some(initialize_with_readme), ..self }),
    {
        ProjectCreate { initialize_with_readme: Some(initialize_with_readme), ..self }
    }

    /// The request body of the creation call: an absent description
    /// becomes the empty string, an absent README choice becomes
    /// `false`; everything else is carried over.
    pub fn to_payload(self) -> (r: ProjectCreatePayload)
        ensures
            r.name == self.name,
            r.namespace_id == self.namespace_id,
            r.visibility == self.visibility,
            self.description matches Some(d) ==> r.description == Some(d),
            self.description is None ==> (r.description matches Some(d) && d@ == Seq::<
                char,
            >::empty()),
            self.initialize_with_readme matches Some(b) ==> r.initialize_with_readme == Some(b),
            self.initialize_with_readme is None ==> r.initialize_with_readme == Some(false),
    {
        proof {
            reveal_strlit("");
        }
        let description = match self.description {
            Some(d) => Some(d),
            None => Some(String::from_str("")),
        };
        let initialize_with_readme = match self.initialize_with_readme {
            Some(b) => Some(b),
            None => Some(false),
        };
        ProjectCreatePayload {
            name: self.name,
            namespace_id: self.namespace_id,
            description,
            visibility: self.visibility,
            initialize_with_readme,
        }
    }
}

/// Picks the namespace a project is created in: the resolved group
/// name when a group was asked for, else the caller's username.
pub fn creation_namespace(group_name: Option<String>, username: String) -> (r: String)
    ensures
        group_name matches Some(g) ==> r == g,
        group_name is None ==> r == username,
{
    match group_name {
        Some(g) => g,
        None => username,
    }
}

/// Configuration for deleting a project.
#[derive(Debug)]
pub struct ProjectDelete {
    /// Full path of the project: `owner/name`.
    pub full_name: String,
}

impl ProjectDelete {
    /// A deletion request for a fully qualified project name.
    pub fn new(full_name: &str) -> (r: Self)
        ensures
            r.full_name@ == full_name@,
    {
        ProjectDelete { full_name: String::from_str(full_name) }
    }

    /// The deletion path: the full name percent-encoded as one path
    /// segment.
    pub fn delete_path(&self) -> (r: String)
        ensures
            r@ == spec_project_path(percent_encoded(vstd::utf8::encode_utf8(self.full_name@))),
    {
        let encoded = urlencode(self.full_name.as_str());
        project_path(encoded.as_str())
    }
}

/// Judges a project deletion answer: any client or server error
/// status (4xx or 5xx) fails the deletion.
pub fn check_delete_project_status(status: u16) -> (r: Result<(), GlabuError>)
    ensures
        r is Ok <==> !(400 <= status < 600),
        r matches Err(e) ==> (e matches GlabuError::RequestFailed { status: s, body } && s
            == status && body@ == Seq::<char>::empty()),
{
    proof {
        reveal_strlit("");
    }
    if 400 <= status && status < 600 {
        Err(GlabuError::RequestFailed { status, body: String::from_str("") })
    } else {
        Ok(())
    }
}

/// Configuration for creating a push mirror on a project.
#[derive(Debug)]
pub struct ProjectPushMirror {
    pub project_id: u64,
    pub remote_url_with_cred: String,
    pub enabled: bool,
    pub only_protected_branches: bool,
    pub keep_divergent_refs: bool,
}

impl ProjectPushMirror {
    /// A fresh mirror request: enabled, mirroring all branches,
    /// pruning divergent refs.
    pub fn new(project_id: u64, remote_url_with_cred: &str) -> (r: Self)
        ensures
            r.project_id == project_id,
            r.remote_url_with_cred@ == remote_url_with_cred@,
            r.enabled == true,
            r.only_protected_branches == false,
            r.keep_divergent_refs == false,
    {
        ProjectPushMirror {
            project_id,
            remote_url_with_cred: String::from_str(remote_url_with_cred),
            enabled: true,
            only_protected_branches: false,
            keep_divergent_refs: false,
        }
    }

    /// The request body of the mirror creation call.
    pub fn to_payload(self) -> (r: ProjectPushMirrorPayload)
        ensures
            r.url == self.remote_url_with_cred,
            r.enabled == self.enabled,
            r.only_protected_branches == self.only_protected_branches,
            r.keep_divergent_refs == self.keep_divergent_refs,
    {
        ProjectPushMirrorPayload {
            url: self.remote_url_with_cred,
            enabled: self.enabled,
            only_protected_branches: self.only_protected_branches,
            keep_divergent_refs: self.keep_divergent_refs,
        }
    }
}

/// Judges a mirror creation answer: 404 is the `NotFound` failure;
/// anything else is accepted.
pub fn check_push_mirror_status(status: u16) -> (r: Result<(), GlabuError>)
    ensures
        r is Ok <==> status != 404,
        r matches Err(e) ==> e == GlabuError::NotFound,
{
    if status == 404 {
        Err(GlabuError::NotFound)
    } else {
        Ok(())
    }
}

/// Configuration for privately forking a repository.
#[derive(Debug)]
pub struct ProjectForkPrivate {
    pub source_url: String,
    pub target_name: String,
    pub target_namespace_id: Option<u64>,
    pub description: Option<String>,
    pub mirror_to_github: bool,
}

impl ProjectForkPrivate {
    /// A fresh fork request, mirroring to the second provider by
    /// default.
    pub fn new(source_url: &str, target_name: &str) -> (r: Self)
        ensures
            r.source_url@ == source_url@,
            r.target_name@ == target_name@,
            r.target_namespace_id is None,
            r.description is None,
            r.mirror_to_github == true,
    {
        ProjectForkPrivate {
            source_url: String::from_str(source_url),
            target_name: String::from_str(target_name),
            target_namespace_id: None,
            description: None,
            mirror_to_github: true,
        }
    }

    /// Sets the description of the fork.
    pub fn description(self, description: &str) -> (r: Self)
        ensures
            r.description matches Some(d) && d@ == description@,
            r.source_url == self.source_url,
            r.target_name == self.target_name,
            r.target_namespace_id == self.target_namespace_id,
            r.mirror_to_github == self.mirror_to_github,
    {
        ProjectForkPrivate { description: Some(String::from_str(description)), ..self }
    }

    /// Sets whether the fork is also mirrored to the second provider.
    pub fn mirror_to_github(self, mirror_to_github: bool) -> (r: Self)
        ensures
            r == (ProjectForkPrivate { mirror_to_github, ..self }),
    {
        ProjectForkPrivate { mirror_to_github, ..self }
    }

    /// The creation request of the fork target: always private, never
    /// initialized with a README.
    pub fn to_project_create(self) -> (r: ProjectCreate)
        ensures
            r.name == self.target_name,
            r.namespace_id == self.target_namespace_id,
            r.description == self.description,
            r.visibility == ProjectVisibility::Private,
            r.initialize_with_readme == Some(false),
    {
        ProjectCreate {
            name: self.target_name,
            namespace_id: self.target_namespace_id,
            description: self.description,
            visibility: ProjectVisibility::Private,
            initialize_with_readme: Some(false),
        }
    }

    /// The temporary working copy path of the bare clone:
    /// `{temp_dir}/{target_name}`.
    pub fn temp_repo_path(&self, temp_dir: &str) -> (r: String)
        ensures
            r@ == temp_dir@ + "/"@ + self.target_name@,
    {
        full_project_name(temp_dir, self.target_name.as_str())
    }

    /// The argument list of the bare mirror clone:
    /// `clone --bare {source_url} {target_name}`.
    pub fn clone_args(&self) -> (r: Vec<String>)
        ensures
            strings_view(r@) =~= seq!["clone"@, "--bare"@, self.source_url@, self.target_name@],
    {
        let mut out: Vec<String> = Vec::new();
        out.push(String::from_str("clone"));
        out.push(String::from_str("--bare"));
        out.push(self.source_url.clone());
        out.push(self.target_name.clone());
        out
    }
}

/// The argument list of the mirror push into the fork:
/// `push --mirror {ssh_url_to_repo}`.
pub fn push_mirror_args(ssh_url_to_repo: &str) -> (r: Vec<String>)
    ensures
        strings_view(r@) =~= seq!["push"@, "--mirror"@, ssh_url_to_repo@],
{
    let mut out: Vec<String> = Vec::new();
    out.push(String::from_str("push"));
    out.push(String::from_str("--mirror"));
    out.push(String::from_str(ssh_url_to_repo));
    out
}

} // verus!

//! Data model of the remote API: projects, groups, users, releases and
//! package records, held as plain values.  Serialization lives outside
//! the verified library; here the types carry the fields the logic reads.

use vstd::prelude::*;

verus! {

/// The views of a sequence of owned strings.
pub open spec fn strings_view(v: Seq<String>) -> Seq<Seq<char>> {
    Seq::new(v.len(), |i: int| v[i]@)
}

/// Direction of an ordering requested from the server.
#[derive(Debug, Clone, Copy, PartialEq, Eq, Structural)]
pub enum SortDirection {
    Asc,
    Desc,
}

/// One package record; many may share a name (one per version/type).
#[derive(Debug)]
pub struct PackageInfo {
    pub id: u64,
    pub name: String,
    pub version: String,
    pub tags: Vec<String>,
    pub created_at: Option<String>,
    pub last_downloaded_at: Option<String>,
    pub package_type: Option<String>,
    pub status: Option<String>,
}

/// One file of a package.  `version` and `name` are not present in the
/// remote answer: they are stamped on afterwards from the owning
/// package record, and the download path construction depends on them.
#[derive(Debug)]
pub struct PackageFileInfo {
    pub id: u64,
    pub package_id: u64,
    pub created_at: String,
    pub file_name: String,
    pub size: Option<u64>,
    pub file_md5: Option<String>,
    pub file_sha1: Option<String>,
    pub file_sha256: Option<String>,
    pub version: Option<String>,
    pub name: Option<String>,
}

/// A project as the remote reports it.
#[derive(Debug)]
pub struct Project {
    pub id: u64,
    pub description: String,
    pub name: String,
    pub name_with_namespace: String,
    pub path: String,
    pub path_with_namespace: String,
    pub created_at: String,
    pub default_branch: String,
    pub tag_list: Vec<String>,
    pub topics: Vec<String>,
    pub ssh_url_to_repo: String,
    pub http_url_to_repo: String,
    pub web_url: String,
    pub readme_url: Option<String>,
    pub forks_count: u64,
    pub avatar_url: Option<String>,
    pub star_count: u64,
    pub last_activity_at: String,
    pub namespace: Option<Namespace>,
    pub container_registry_image_prefix: String,
    pub links: Option<Links>,
    pub packages_enabled: bool,
    pub empty_repo: bool,
    pub archived: bool,
    pub visibility: String,
    pub owner: Option<Owner>,
    pub resolve_outdated_diff_discussions: bool,
    pub container_expiration_policy: Option<ContainerExpirationPolicy>,
    pub repository_object_format: String,
    pub issues_enabled: bool,
    pub merge_requests_enabled: bool,
    pub wiki_enabled: bool,
    pub jobs_enabled: bool,
    pub open_issues_count: i64,
    pub description_html: String,
    pub updated_at: String,
}

/// The namespace (user or group) a project lives under.
#[derive(Debug)]
pub struct Namespace {
    pub id: i64,
    pub name: String,
    pub path: String,
    pub kind: String,
    pub full_path: String,
    pub parent_id: Option<i64>,
    pub avatar_url: String,
    pub web_url: String,
}

/// Related API endpoints of a project.
#[derive(Debug)]
pub struct Links {
    pub self_link: String,
    pub issues: String,
    pub merge_requests: String,
    pub repo_branches: String,
    pub labels: String,
    pub events: String,
    pub members: String,
    pub cluster_agents: String,
}

/// The owning user of a project, when the remote reports one.
#[derive(Debug)]
pub struct Owner {
    pub id: i64,
    pub username: String,
    pub name: String,
    pub state: String,
    pub locked: bool,
    pub avatar_url: String,
    pub web_url: String,
}

/// Container registry expiration settings of a project.
#[derive(Debug)]
pub struct ContainerExpirationPolicy {
    pub cadence: String,
    pub enabled: bool,
    pub keep_n: i64,
    pub older_than: String,
    pub name_regex: String,
    pub name_regex_keep: Option<String>,
    pub next_run_at: String,
}

/// Body of a push-mirror creation request.
#[derive(Debug)]
pub struct ProjectPushMirrorPayload {
    pub url: String,
    pub enabled: bool,
    pub only_protected_branches: bool,
    pub keep_divergent_refs: bool,
}

/// Body of a project creation request.
#[derive(Debug)]
pub struct ProjectCreatePayload {
    pub name: String,
    pub namespace_id: Option<u64>,
    pub description: Option<String>,
    pub visibility: ProjectVisibility,
    pub initialize_with_readme: Option<bool>,
}

/// Visibility of a project.
#[derive(Debug, Clone, Copy, PartialEq, Eq, Structural)]
pub enum ProjectVisibility {
    Public,
    Internal,
    Private,
}

/// A group as the remote reports it.
#[derive(Debug)]
pub struct Group {
    pub id: u64,
    pub web_url: String,
    pub name: String,
    pub path: String,
    pub description: String,
    pub visibility: String,
    pub share_with_group_lock: bool,
    pub require_two_factor_authentication: bool,
    pub two_factor_grace_period: u32,
    pub project_creation_level: String,
    pub auto_devops_enabled: Option<bool>,
    pub subgroup_creation_level: String,
    pub emails_disabled: bool,
    pub emails_enabled: bool,
    pub mentions_disabled: Option<bool>,
    pub lfs_enabled: bool,
    pub math_rendering_limits_enabled: bool,
    pub lock_math_rendering_limits_enabled: bool,
    pub default_branch: Option<String>,
    pub default_branch_protection: u32,
    pub default_branch_protection_defaults: Option<DefaultBranchProtection>,
    pub avatar_url: Option<String>,
    pub request_access_enabled: bool,
    pub full_name: String,
    pub full_path: String,
    pub created_at: String,
    pub parent_id: Option<u64>,
    pub organization_id: u64,
    pub shared_runners_setting: String,
    pub max_artifacts_size: Option<u64>,
    pub ldap_cn: Option<String>,
    pub ldap_access: Option<u64>,
    pub wiki_access_level: String,
}

/// Branch protection defaults of a group.
#[derive(Debug)]
pub struct DefaultBranchProtection {
    pub allowed_to_push: Vec<AccessLevel>,
    pub allow_force_push: bool,
    pub allowed_to_merge: Vec<AccessLevel>,
}

/// A single access level entry in branch protection defaults.
#[derive(Debug)]
pub struct AccessLevel {
    pub access_level: u32,
}

/// The authenticated user as the remote reports it.
#[derive(Debug)]
pub struct User {
    pub avatar_url: String,
    pub bio: String,
    pub bot: bool,
    pub can_create_group: bool,
    pub can_create_project: bool,
    pub color_scheme_id: i64,
    pub commit_email: String,
    pub confirmed_at: Option<String>,
    pub created_at: Option<String>,
    pub current_sign_in_at: Option<String>,
    pub discord: String,
    pub email: String,
    pub external: bool,
    pub extra_shared_runners_minutes_limit: Option<i64>,
    pub id: u64,
    pub identities: Vec<Identity>,
    pub job_title: String,
    pub last_activity_on: Option<String>,
    pub last_sign_in_at: Option<String>,
    pub name: String,
    pub organization: String,
    pub private_profile: bool,
    pub projects_limit: i64,
    pub public_email: String,
    pub shared_runners_minutes_limit: Option<i64>,
    pub state: String,
    pub two_factor_enabled: bool,
    pub username: String,
    pub web_url: String,
    pub website_url: String,
    pub work_information: Option<String>,
}

/// An external identity bound to a user account.
#[derive(Debug)]
pub struct Identity {
    pub extern_uid: String,
    pub provider: String,
    pub saml_provider_id: Option<String>,
}

/// Answer of the project search query.
#[derive(Debug)]
pub struct ProjectSearchResponse {
    pub data: SearchData,
}

/// Data envelope of a search answer.
#[derive(Debug)]
pub struct SearchData {
    pub projects: SearchProjects,
}

/// Count and page of matching projects.
#[derive(Debug)]
pub struct SearchProjects {
    pub count: u32,
    pub nodes: Vec<SearchProjectNode>,
}

/// One matching project of a search.
#[derive(Debug)]
pub struct SearchProjectNode {
    pub full_path: String,
    pub description: Option<String>,
    pub web_url: String,
    pub ssh_url_to_repo: String,
}

/// A release of a project.
#[derive(Debug)]
pub struct ProjectRelease {
    pub name: String,
    pub tag_name: String,
    pub description: String,
    pub created_at: String,
    pub released_at: String,
    pub upcoming_release: bool,
    pub author: ReleaseAuthor,
    pub commit: ReleaseCommit,
    pub commit_path: String,
    pub tag_path: String,
    pub assets: ReleaseAssets,
    pub evidences: Vec<ReleaseEvidence>,
}

/// The author of a release.
#[derive(Debug)]
pub struct ReleaseAuthor {
    pub id: u64,
    pub username: String,
    pub name: String,
    pub state: String,
    pub locked: bool,
    pub avatar_url: String,
    pub web_url: String,
}

/// The commit a release points at.
#[derive(Debug)]
pub struct ReleaseCommit {
    pub id: String,
    pub short_id: String,
    pub created_at: String,
    pub parent_ids: Vec<String>,
    pub title: String,
    pub message: String,
    pub author_name: String,
    pub author_email: String,
    pub authored_date: String,
    pub committer_name: String,
    pub committer_email: String,
    pub committed_date: String,
    pub web_url: String,
}

/// The downloadable assets of a release.
#[derive(Debug)]
pub struct ReleaseAssets {
    pub count: u64,
    pub sources: Vec<ReleaseSource>,
    pub links: Vec<ReleaseLink>,
}

/// One source archive of a release.
#[derive(Debug)]
pub struct ReleaseSource {
    pub format: String,
    pub url: String,
}

/// One extra link of a release.
#[derive(Debug)]
pub struct ReleaseLink {
    pub id: Option<u64>,
    pub name: String,
    pub url: String,
    pub direct_asset_url: String,
    pub link_type: String,
}

/// One evidence record of a release.
#[derive(Debug)]
pub struct ReleaseEvidence {
    pub sha: String,
    pub filepath: String,
    pub collected_at: String,
}

/// The structured result object a command prints on success.
#[derive(Debug)]
pub struct PrintOutput {
    pub status: String,
    pub output: Vec<String>,
}

} // verus!

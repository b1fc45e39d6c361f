//! Construction of the URL paths of every endpoint the client talks to.
//!
//! Each builder states the exact character sequence it produces; the
//! HTTP layer outside the library only prepends the host and `/api/v4`.

use crate::numfmt::{dec_digits, u64_to_dec};
use vstd::prelude::*;

verus! {

/// The full URL of an API path: `{host}/api/v4{path}`.
pub open spec fn spec_api_url(host: Seq<char>, path: Seq<char>) -> Seq<char> {
    host + "/api/v4"@ + path
}

/// Joins the API host and a path into the request URL.
pub fn api_url(host: &str, path: &str) -> (r: String)
    ensures
        r@ == spec_api_url(host@, path@),
{
    let mut out = String::from_str(host);
    out.append("/api/v4");
    out.append(path);
    out
}

/// The GraphQL endpoint of a host: `{host}/api/graphql`.
pub fn graphql_url(host: &str) -> (r: String)
    ensures
        r@ == host@ + "/api/graphql"@,
{
    let mut out = String::from_str(host);
    out.append("/api/graphql");
    out
}

/// The path of a single project: `/projects/{encoded_ref}`.
pub open spec fn spec_project_path(encoded_ref: Seq<char>) -> Seq<char> {
    "/projects/"@ + encoded_ref
}

/// Builds the path of a single project from an already encoded reference.
pub fn project_path(encoded_ref: &str) -> (r: String)
    ensures
        r@ == spec_project_path(encoded_ref@),
{
    let mut out = String::from_str("/projects/");
    out.append(encoded_ref);
    out
}

/// The package listing path of a project with a suffix:
/// `/projects/{id}/packages{suffix}`.
pub open spec fn spec_packages_path(project_id: Seq<char>, suffix: Seq<char>) -> Seq<char> {
    "/projects/"@ + project_id + "/packages"@ + suffix
}

/// Builds the package listing path of a project.
pub fn packages_path(project_id: &str, suffix: &str) -> (r: String)
    ensures
        r@ == spec_packages_path(project_id@, suffix@),
{
    let mut out = String::from_str("/projects/");
    out.append(project_id);
    out.append("/packages");
    out.append(suffix);
    out
}

/// The suffix listing the files of one package: `/{package_id}/package_files`.
pub open spec fn spec_package_files_suffix(package_id: u64) -> Seq<char> {
    "/"@ + dec_digits(package_id as nat) + "/package_files"@
}

/// Builds the package file listing suffix.
pub fn package_files_suffix(package_id: u64) -> (r: String)
    ensures
        r@ == spec_package_files_suffix(package_id),
{
    let mut out = String::from_str("/");
    let dec = u64_to_dec(package_id);
    out.append(dec.as_str());
    out.append("/package_files");
    out
}

/// The suffix deleting one package: `/{package_id}`.
pub open spec fn spec_package_delete_suffix(package_id: u64) -> Seq<char> {
    "/"@ + dec_digits(package_id as nat)
}

/// Builds the package deletion suffix.
pub fn package_delete_suffix(package_id: u64) -> (r: String)
    ensures
        r@ == spec_package_delete_suffix(package_id),
{
    let mut out = String::from_str("/");
    let dec = u64_to_dec(package_id);
    out.append(dec.as_str());
    out
}

/// The suffix deleting one package file:
/// `/{package_id}/package_files/{package_file_id}`.
pub open spec fn spec_package_file_delete_suffix(package_id: u64, package_file_id: u64) -> Seq<
    char,
> {
    "/"@ + dec_digits(package_id as nat) + "/package_files/"@ + dec_digits(
        package_file_id as nat,
    )
}

/// Builds the package file deletion suffix.
pub fn package_file_delete_suffix(package_id: u64, package_file_id: u64) -> (r: String)
    ensures
        r@ == spec_package_file_delete_suffix(package_id, package_file_id),
{
    let mut out = String::from_str("/");
    let dec = u64_to_dec(package_id);
    out.append(dec.as_str());
    out.append("/package_files/");
    let dec_file = u64_to_dec(package_file_id);
    out.append(dec_file.as_str());
    out
}

/// The download/upload path of one generic package file:
/// `/projects/{project_id}/packages/generic/{name}/{version}/{file_name}`.
pub open spec fn spec_generic_package_path(
    project_id: Seq<char>,
    package_name: Seq<char>,
    version: Seq<char>,
    file_name: Seq<char>,
) -> Seq<char> {
    "/projects/"@ + project_id + "/packages/generic/"@ + package_name + "/"@ + version + "/"@
        + file_name
}

/// Builds the path of one generic package file.
pub fn generic_package_path(
    project_id: &str,
    package_name: &str,
    version: &str,
    file_name: &str,
) -> (r: String)
    ensures
        r@ == spec_generic_package_path(project_id@, package_name@, version@, file_name@),
{
    let mut out = String::from_str("/projects/");
    out.append(project_id);
    out.append("/packages/generic/");
    out.append(package_name);
    out.append("/");
    out.append(version);
    out.append("/");
    out.append(file_name);
    out
}

/// The push-mirror creation path: `/projects/{project_id}/remote_mirrors`.
pub open spec fn spec_remote_mirrors_path(project_id: u64) -> Seq<char> {
    "/projects/"@ + dec_digits(project_id as nat) + "/remote_mirrors"@
}

/// Builds the push-mirror creation path.
pub fn remote_mirrors_path(project_id: u64) -> (r: String)
    ensures
        r@ == spec_remote_mirrors_path(project_id),
{
    let mut out = String::from_str("/projects/");
    let dec = u64_to_dec(project_id);
    out.append(dec.as_str());
    out.append("/remote_mirrors");
    out
}

/// The release listing path: `/projects/{project_id}/releases`.
pub open spec fn spec_releases_path(project_id: u64) -> Seq<char> {
    "/projects/"@ + dec_digits(project_id as nat) + "/releases"@
}

/// Builds the release listing path.
pub fn releases_path(project_id: u64) -> (r: String)
    ensures
        r@ == spec_releases_path(project_id),
{
    let mut out = String::from_str("/projects/");
    let dec = u64_to_dec(project_id);
    out.append(dec.as_str());
    out.append("/releases");
    out
}

/// The latest-release path: `/projects/{project_id}/releases/permalink/latest`.
pub open spec fn spec_latest_release_path(project_id: u64) -> Seq<char> {
    "/projects/"@ + dec_digits(project_id as nat) + "/releases/permalink/latest"@
}

/// Builds the latest-release path.
pub fn latest_release_path(project_id: u64) -> (r: String)
    ensures
        r@ == spec_latest_release_path(project_id),
{
    let mut out = String::from_str("/projects/");
    let dec = u64_to_dec(project_id);
    out.append(dec.as_str());
    out.append("/releases/permalink/latest");
    out
}

/// The authenticated-user path.
pub fn user_path() -> (r: String)
    ensures
        r@ == "/user"@,
{
    String::from_str("/user")
}

/// The group lookup path of a numeric group ID: `/groups/{id}`.
pub open spec fn spec_group_path_by_id(id: u64) -> Seq<char> {
    "/groups/"@ + dec_digits(id as nat)
}

/// Builds the group lookup path from a numeric group ID.
pub fn group_path_by_id(id: u64) -> (r: String)
    ensures
        r@ == spec_group_path_by_id(id),
{
    let mut out = String::from_str("/groups/");
    let dec = u64_to_dec(id);
    out.append(dec.as_str());
    out
}

/// The group lookup path: `/groups/{name_or_id}`.
pub open spec fn spec_group_path(name: Seq<char>) -> Seq<char> {
    "/groups/"@ + name
}

/// Builds the group lookup path.
pub fn group_path(name: &str) -> (r: String)
    ensures
        r@ == spec_group_path(name@),
{
    let mut out = String::from_str("/groups/");
    out.append(name);
    out
}

} // verus!

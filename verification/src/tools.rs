//! String construction for the build and release tooling: container
//! image tags, target triples, binary paths and the exact argument
//! lists the tooling hands to external programs.

use crate::models::strings_view;
use vstd::prelude::*;

verus! {

/// The manifest tag of a build: `{registry}:{commit_hash}`.
pub fn manifest_tag(registry: &str, commit_hash: &str) -> (r: String)
    ensures
        r@ == registry@ + ":"@ + commit_hash@,
{
    let mut out = String::from_str(registry);
    out.append(":");
    out.append(commit_hash);
    out
}

/// The image tag of one architecture: `{registry}:{commit_hash}-{arch}`.
pub fn image_tag(registry: &str, commit_hash: &str, arch: &str) -> (r: String)
    ensures
        r@ == registry@ + ":"@ + commit_hash@ + "-"@ + arch@,
{
    let mut out = manifest_tag(registry, commit_hash);
    out.append("-");
    out.append(arch);
    out
}

/// The static-linking target triple of an architecture:
/// `{arch}-unknown-linux-musl`.
pub fn target_triple(arch: &str) -> (r: String)
    ensures
        r@ == arch@ + "-unknown-linux-musl"@,
{
    let mut out = String::from_str(arch);
    out.append("-unknown-linux-musl");
    out
}

/// The release binary path of an architecture:
/// `./target/{arch}-unknown-linux-musl/release/glabu`.
pub fn release_binary_path(arch: &str) -> (r: String)
    ensures
        r@ == "./target/"@ + arch@ + "-unknown-linux-musl"@ + "/release/glabu"@,
{
    let mut out = String::from_str("./target/");
    let triple = target_triple(arch);
    out.append(triple.as_str());
    out.append("/release/glabu");
    out
}

/// The name a prebuilt binary is published under: `glabu-{arch}`.
pub fn prebuilt_binary_name(arch: &str) -> (r: String)
    ensures
        r@ == "glabu_"@ + arch@,
{
    let mut out = String::from_str("glabu_");
    out.append(arch);
    out
}

/// The in-container path a prebuilt binary is copied from:
/// `/app/glabu_{arch}`.
pub fn container_binary_path(arch: &str) -> (r: String)
    ensures
        r@ == "/app/glabu_"@ + arch@,
{
    let mut out = String::from_str("/app/glabu_");
    out.append(arch);
    out
}

/// The install command a user is told to run:
/// `sudo install {binary} /usr/local/bin/glabu`.
pub fn install_command(binary: &str) -> (r: String)
    ensures
        r@ == "sudo install "@ + binary@ + " /usr/local/bin/glabu"@,
{
    let mut out = String::from_str("sudo install ");
    out.append(binary);
    out.append(" /usr/local/bin/glabu");
    out
}

/// The argument list of the self-upload invocation the release
/// tooling runs: upload one built binary as a generic package file.
pub fn upload_invocation_args(
    project: &str,
    package_name: &str,
    package_version: &str,
    file_name: &str,
    file_path: &str,
) -> (r: Vec<String>)
    ensures
        strings_view(r@) =~= seq![
            "package-upload"@,
            project@,
            "--package-name"@,
            package_name@,
            "--package-version"@,
            package_version@,
            "--file-name"@,
            file_name@,
            "--file-path"@,
            file_path@,
        ],
{
    let mut out: Vec<String> = Vec::new();
    out.push(String::from_str("package-upload"));
    out.push(String::from_str(project));
    out.push(String::from_str("--package-name"));
    out.push(String::from_str(package_name));
    out.push(String::from_str("--package-version"));
    out.push(String::from_str(package_version));
    out.push(String::from_str("--file-name"));
    out.push(String::from_str(file_name));
    out.push(String::from_str("--file-path"));
    out.push(String::from_str(file_path));
    out
}

} // verus!

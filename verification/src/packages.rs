//! Package registry operations: the generic package coordinates, the
//! client-side enrichment join, resolution of the required package out
//! of a listing, and the status-code contracts of the transfer and
//! deletion endpoints.

use crate::error::GlabuError;
use crate::models::{PackageFileInfo, PackageInfo};
use crate::paths::{generic_package_path, spec_generic_package_path};
use vstd::prelude::*;

verus! {

/// One file record after the enrichment join: `version` and `name` are
/// stamped from the owning package, everything else is kept.
pub open spec fn enriched_file(f: PackageFileInfo, p: PackageInfo) -> PackageFileInfo {
    PackageFileInfo {
        id: f.id,
        package_id: f.package_id,
        created_at: f.created_at,
        file_name: f.file_name,
        size: f.size,
        file_md5: f.file_md5,
        file_sha1: f.file_sha1,
        file_sha256: f.file_sha256,
        version: Some(p.version),
        name: Some(p.name),
    }
}

/// A whole file listing after the enrichment join.
pub open spec fn spec_enrich(files: Seq<PackageFileInfo>, p: PackageInfo) -> Seq<PackageFileInfo> {
    Seq::new(files.len(), |i: int| enriched_file(files[i], p))
}

/// Every enriched file carries the owning package's version and name,
/// never absent, and its own fields otherwise unchanged.
pub proof fn lemma_enrichment_invariant(files: Seq<PackageFileInfo>, p: PackageInfo)
    ensures
        spec_enrich(files, p).len() == files.len(),
        forall|i: int|
            0 <= i < files.len() ==> (#[trigger] spec_enrich(files, p)[i]).version == Some(
                p.version,
            ),
        forall|i: int|
            0 <= i < files.len() ==> (#[trigger] spec_enrich(files, p)[i]).name == Some(p.name),
        forall|i: int|
            0 <= i < files.len() ==> (#[trigger] spec_enrich(files, p)[i]).file_name == files[i].file_name,
{
}

/// Stamps every file of a listing with the owning package's version
/// and name.  The remote answer does not carry these fields; the
/// download path construction depends on them.
pub fn enrich_package_files(files: Vec<PackageFileInfo>, package: &PackageInfo) -> (r: Vec<
    PackageFileInfo,
>)
    ensures
        r@ == spec_enrich(files@, *package),
{
    let ghost orig = files@;
    let mut rest = files;
    let mut out: Vec<PackageFileInfo> = Vec::new();
    while rest.len() > 0
        invariant
            rest.len() <= orig.len(),
            rest@ == orig.skip(orig.len() - rest.len()),
            out@ =~= spec_enrich(orig.take(orig.len() - rest.len()), *package),
        decreases rest.len(),
    {
        let ghost i: int = orig.len() - rest.len();
        let f = rest.remove(0);
        proof {
            assert(orig.skip(i)[0] == orig[i]);
            assert(f == orig[i]);
        }
        let enriched = PackageFileInfo {
            id: f.id,
            package_id: f.package_id,
            created_at: f.created_at,
            file_name: f.file_name,
            size: f.size,
            file_md5: f.file_md5,
            file_sha1: f.file_sha1,
            file_sha256: f.file_sha256,
            version: Some(package.version.clone()),
            name: Some(package.name.clone()),
        };
        out.push(enriched);
        proof {
            assert(rest@ =~= orig.skip(i + 1));
            assert(out@ =~= spec_enrich(orig.take(i + 1), *package));
        }
    }
    proof {
        assert(orig.take(orig.len() as int) =~= orig);
    }
    out
}

/// Picks the single required package out of a listing: the first
/// record of a possibly multi-element answer.  An empty answer is the
/// `PackageNotFound` failure, and nothing else is.
pub fn first_package(packages: Vec<PackageInfo>) -> (r: Result<PackageInfo, GlabuError>)
    ensures
        r is Ok <==> packages@.len() > 0,
        r matches Ok(p) ==> p == packages@[0],
        r matches Err(e) ==> e == GlabuError::PackageNotFound,
{
    let mut packages = packages;
    if packages.len() == 0 {
        Err(GlabuError::PackageNotFound)
    } else {
        let p = packages.remove(0);
        Ok(p)
    }
}

/// Judges the answer of a generic package file upload: strictly 201 is
/// success; any other status is an upload failure carrying the status
/// and the server body.
pub fn check_upload_status(status: u16, body: String) -> (r: Result<(), GlabuError>)
    ensures
        r is Ok <==> status == 201,
        r matches Err(e) ==> e == (GlabuError::UploadFailed { status, body }),
{
    if status == 201 {
        Ok(())
    } else {
        Err(GlabuError::UploadFailed { status, body })
    }
}

/// Judges the answer of a single file download: strictly 200 is
/// success; any other status aborts the batch with the server body.
pub fn check_download_status(status: u16, body: String) -> (r: Result<(), GlabuError>)
    ensures
        r is Ok <==> status == 200,
        r matches Err(e) ==> e == (GlabuError::DownloadFailed { body }),
{
    if status == 200 {
        Ok(())
    } else {
        Err(GlabuError::DownloadFailed { body })
    }
}

/// Judges the answer of a package or package file deletion: strictly
/// 200 is success.
pub fn check_delete_status(status: u16) -> (r: Result<(), GlabuError>)
    ensures
        r is Ok <==> status == 200,
        r matches Err(e) ==> e == (GlabuError::DeleteFailed { status }),
{
    if status == 200 {
        Ok(())
    } else {
        Err(GlabuError::DeleteFailed { status })
    }
}

/// Coordinates of a generic package file for uploading/downloading.
#[derive(Debug)]
pub struct GenericPackageOp {
    /// Project ID or URL-encoded path.
    pub project_id: String,
    /// Name of the package.
    pub package_name: String,
    /// Version of the package; when absent, the latest version is used.
    pub package_version: Option<String>,
    /// The file name.
    pub file_name: String,
}

impl GenericPackageOp {
    /// Fresh coordinates for a project, package and file, without a
    /// pinned version.
    pub fn new(project_id: &str, package_name: &str, file_name: &str) -> (r: Self)
        ensures
            r.project_id@ == project_id@,
            r.package_name@ == package_name@,
            r.file_name@ == file_name@,
            r.package_version is None,
    {
        GenericPackageOp {
            project_id: String::from_str(project_id),
            package_name: String::from_str(package_name),
            file_name: String::from_str(file_name),
            package_version: None,
        }
    }

    /// Replaces the package name.
    pub fn package_name(self, package_name: &str) -> (r: Self)
        ensures
            r.package_name@ == package_name@,
            r.project_id == self.project_id,
            r.package_version == self.package_version,
            r.file_name == self.file_name,
    {
        GenericPackageOp { package_name: String::from_str(package_name), ..self }
    }

    /// Replaces the package version.
    pub fn package_version(self, pv: Option<String>) -> (r: Self)
        ensures
            r == (GenericPackageOp { package_version: pv, ..self }),
    {
        GenericPackageOp { package_version: pv, ..self }
    }

    /// Replaces the file name.
    pub fn file_name(self, file_name: &str) -> (r: Self)
        ensures
            r.file_name@ == file_name@,
            r.project_id == self.project_id,
            r.package_name == self.package_name,
            r.package_version == self.package_version,
    {
        GenericPackageOp { file_name: String::from_str(file_name), ..self }
    }

    /// The upload path of one file of this package under an explicit
    /// version and file name.
    pub fn upload_url_path(&self, package_version: &str, file_name: &str) -> (r: String)
        ensures
            r@ == spec_generic_package_path(
                self.project_id@,
                self.package_name@,
                package_version@,
                file_name@,
            ),
    {
        generic_package_path(
            self.project_id.as_str(),
            self.package_name.as_str(),
            package_version,
            file_name,
        )
    }
}

/// Where a downloaded file is written: into the requested directory
/// when it exists and is a directory, else into the fixed fallback.
pub open spec fn spec_output_file(
    output_dir: Seq<char>,
    output_dir_is_dir: bool,
    file_name: Seq<char>,
) -> Seq<char> {
    (if output_dir_is_dir {
        output_dir
    } else {
        "/tmp"@
    }) + "/"@ + file_name
}

/// Resolves the local output path of one downloaded file.  A bad
/// output directory never fails the batch: the fixed fallback
/// directory is used instead.
pub fn resolve_output_file(output_dir: &str, output_dir_is_dir: bool, file_name: &str) -> (r:
    String)
    ensures
        r@ == spec_output_file(output_dir@, output_dir_is_dir, file_name@),
{
    let mut out = if output_dir_is_dir {
        String::from_str(output_dir)
    } else {
        String::from_str("/tmp")
    };
    out.append("/");
    out.append(file_name);
    out
}

} // verus!

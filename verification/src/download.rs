//! The download pipeline, as a state machine of decisions.
//!
//! Each invocation resolves the wanted package (explicit version or
//! latest), lists and enriches its files, selects the wanted subset,
//! and fetches the survivors one by one.  The machine holds every
//! decision; the surrounding process performs the announced action
//! (an HTTP request) and feeds the answer back as the next event.
//! An empty selection is success with zero downloads; the first
//! failing fetch aborts the whole batch with no partial result.

use crate::error::GlabuError;
use crate::filter::{spec_select, FileSelector};
use crate::models::{strings_view, PackageFileInfo, PackageInfo};
use crate::numfmt::dec_digits;
use crate::packages::{
    enrich_package_files, enriched_file, first_package, resolve_output_file, spec_enrich,
    spec_output_file,
};
use crate::paths::{
    generic_package_path, package_files_suffix, packages_path, spec_generic_package_path,
    spec_package_files_suffix, spec_packages_path,
};
use crate::query::{pairs_view, spec_query_pairs, ProjectPackageListOp};
use vstd::prelude::*;

verus! {

/// Everything a download invocation is configured with.  The project
/// reference is already URL-encoded; whether the output directory
/// exists and is a directory is established once by the caller.
pub struct DownloadRequest {
    pub project_id: String,
    pub package_name: String,
    /// The wanted version; absent means the most recently created one.
    pub package_version: Option<String>,
    pub selector: FileSelector,
    pub output_dir: String,
    pub output_dir_is_dir: bool,
}

/// Where the pipeline stands.
pub enum DownloadPhase {
    /// Waiting for the package listing that resolves the version.
    ResolvingPackage,
    /// Waiting for the file listing of the resolved package.
    ListingFiles { package: PackageInfo },
    /// Fetching the selected files one by one; `outputs` holds the
    /// paths written so far, `next` indexes the file in flight.
    Transferring { files: Vec<PackageFileInfo>, next: usize, outputs: Vec<String> },
    /// All selected files written; the ordered local paths.
    Complete { outputs: Vec<String> },
    /// Aborted; nothing of the batch is reported as succeeded.
    Failed { error: GlabuError },
}

/// The answer the surrounding process feeds back after an action.
pub enum DownloadEvent {
    /// The parsed package listing.
    PackagesListed { packages: Vec<PackageInfo> },
    /// The parsed file listing of the resolved package.
    FilesListed { files: Vec<PackageFileInfo> },
    /// Status and body of one file fetch; on 200 the body has been
    /// written to the announced output path.
    FileFetched { status: u16, body: String },
}

/// What the surrounding process must do next.
pub enum DownloadAction {
    /// GET the package listing under this path with this query.
    ListPackages { path: String, query: Vec<(String, String)> },
    /// GET the file listing under this path.
    ListFiles { path: String },
    /// GET the file under `url_path` and write it to `output_path`.
    FetchFile { url_path: String, output_path: String },
    /// Nothing more to do: the phase is `Complete` or `Failed`.
    Finish,
}

/// The remote path one enriched file is fetched from.
pub open spec fn file_url_path(req: DownloadRequest, f: PackageFileInfo) -> Seq<char> {
    spec_generic_package_path(req.project_id@, f.name->0@, f.version->0@, f.file_name@)
}

/// The local path one file is written to.
pub open spec fn file_output_path(req: DownloadRequest, f: PackageFileInfo) -> Seq<char> {
    spec_output_file(req.output_dir@, req.output_dir_is_dir, f.file_name@)
}

/// The query of the initial package listing: an explicit version asks
/// for name and version on the default page size; a latest request
/// asks for the single most recently created package.
pub open spec fn spec_download_query(req: DownloadRequest) -> Seq<(Seq<char>, Seq<char>)> {
    if req.package_version is Some {
        seq![
            ("package_name"@, req.package_name@),
            ("package_version"@, req.package_version->0@),
            ("per_page"@, dec_digits(100)),
        ]
    } else {
        seq![
            ("order_by"@, "created_at"@),
            ("sort"@, "desc"@),
            ("package_name"@, req.package_name@),
            ("per_page"@, dec_digits(1)),
            ("page"@, dec_digits(1)),
        ]
    }
}

/// Which events a phase can take.
pub open spec fn expects(phase: DownloadPhase, event: DownloadEvent) -> bool {
    match (phase, event) {
        (DownloadPhase::ResolvingPackage, DownloadEvent::PackagesListed { .. }) => true,
        (DownloadPhase::ListingFiles { .. }, DownloadEvent::FilesListed { .. }) => true,
        (DownloadPhase::Transferring { .. }, DownloadEvent::FileFetched { .. }) => true,
        _ => false,
    }
}

/// Internal consistency of a phase: while transferring, one file is
/// in flight, one output path has been recorded per finished file,
/// and every selected file carries the stamped version and name.
pub open spec fn phase_wf(phase: DownloadPhase) -> bool {
    match phase {
        DownloadPhase::Transferring { files, next, outputs } => {
            &&& next < files@.len()
            &&& outputs@.len() == next
            &&& forall|i: int|
                0 <= i < files@.len() ==> (#[trigger] files@[i]).version is Some
                    && files@[i].name is Some
        },
        _ => true,
    }
}

/// What the first transition answers: an empty listing is the
/// `PackageNotFound` failure before any file listing is asked for;
/// otherwise the first record is the resolved package and the file
/// listing of exactly that package is requested.
pub open spec fn resolve_transition(
    req: DownloadRequest,
    packages: Seq<PackageInfo>,
    p: DownloadPhase,
    a: DownloadAction,
) -> bool {
    if packages.len() == 0 {
        &&& p matches DownloadPhase::Failed { error: GlabuError::PackageNotFound }
        &&& a is Finish
    } else {
        &&& (p matches DownloadPhase::ListingFiles { package } && package == packages[0])
        &&& (a matches DownloadAction::ListFiles { path } && path@ == spec_packages_path(
            req.project_id@,
            spec_package_files_suffix(packages[0].id),
        ))
    }
}

/// What the second transition answers: the listing is enriched from
/// the resolved package and filtered by the selector; an empty
/// selection completes at once with zero outputs, otherwise the first
/// selected file is put in flight.
pub open spec fn listing_transition(
    req: DownloadRequest,
    package: PackageInfo,
    files: Seq<PackageFileInfo>,
    p: DownloadPhase,
    a: DownloadAction,
) -> bool {
    let selected = spec_select(spec_enrich(files, package), req.selector);
    if selected.len() == 0 {
        &&& (p matches DownloadPhase::Complete { outputs } && outputs@.len() == 0)
        &&& a is Finish
    } else {
        &&& (p matches DownloadPhase::Transferring { files: tf, next, outputs } && tf@ == selected
            && next == 0 && outputs@.len() == 0)
        &&& (a matches DownloadAction::FetchFile { url_path, output_path } && url_path@
            == file_url_path(req, selected[0]) && output_path@ == file_output_path(
            req,
            selected[0],
        ))
    }
}

/// What a fetch answer leads to: any status but 200 aborts the whole
/// batch with the server body and drops the partial outputs; on 200
/// the output path of the fetched file is recorded, and either the
/// next file is put in flight or the batch completes with the ordered
/// list of all written paths.
pub open spec fn transfer_transition(
    req: DownloadRequest,
    files: Seq<PackageFileInfo>,
    next: int,
    outputs: Seq<String>,
    status: u16,
    body: Seq<char>,
    p: DownloadPhase,
    a: DownloadAction,
) -> bool {
    if status != 200 {
        &&& (p matches DownloadPhase::Failed { error: GlabuError::DownloadFailed { body: b } }
            && b@ == body)
        &&& a is Finish
    } else {
        let done = strings_view(outputs).push(file_output_path(req, files[next]));
        if next + 1 == files.len() {
            &&& (p matches DownloadPhase::Complete { outputs: o } && strings_view(o@) == done)
            &&& a is Finish
        } else {
            &&& (p matches DownloadPhase::Transferring { files: tf, next: n, outputs: o } && tf@
                == files && n == next + 1 && strings_view(o@) == done)
            &&& (a matches DownloadAction::FetchFile { url_path, output_path } && url_path@
                == file_url_path(req, files[next + 1]) && output_path@ == file_output_path(
                req,
                files[next + 1],
            ))
        }
    }
}

/// Starts a download: announces the package listing request that
/// resolves the wanted version.
pub fn download_start(req: &DownloadRequest) -> (r: (DownloadPhase, DownloadAction))
    ensures
        r.0 is ResolvingPackage,
        phase_wf(r.0),
        r.1 matches DownloadAction::ListPackages { path, query } && path@ == spec_packages_path(
            req.project_id@,
            ""@,
        ) && pairs_view(query@) == spec_download_query(*req),
{
    let mut op = ProjectPackageListOp::new(req.project_id.as_str()).package_name(
        Some(req.package_name.clone()),
    );
    if let Some(v) = &req.package_version {
        op = op.package_version(Some(v.clone()));
    } else {
        op.latest();
    }
    let query = op.query_params();
    proof {
        assert(pairs_view(query@) =~= spec_download_query(*req));
    }
    let path = packages_path(req.project_id.as_str(), "");
    (DownloadPhase::ResolvingPackage, DownloadAction::ListPackages { path, query })
}

/// Feeds one event into the pipeline and returns the next phase and
/// the action the surrounding process must perform.
pub fn download_step(req: &DownloadRequest, phase: DownloadPhase, event: DownloadEvent) -> (r: (
    DownloadPhase,
    DownloadAction,
))
    requires
        expects(phase, event),
        phase_wf(phase),
    ensures
        phase_wf(r.0),
        phase is ResolvingPackage ==> (event matches DownloadEvent::PackagesListed { packages }
            && resolve_transition(*req, packages@, r.0, r.1)),
        phase matches DownloadPhase::ListingFiles { package } ==> (event
            matches DownloadEvent::FilesListed { files } && (req.selector.wf()
            ==> listing_transition(*req, package, files@, r.0, r.1))),
        phase matches DownloadPhase::Transferring { files, next, outputs } ==> (event
            matches DownloadEvent::FileFetched { status, body } && transfer_transition(
            *req,
            files@,
            next as int,
            outputs@,
            status,
            body@,
            r.0,
            r.1,
        )),
{
    match phase {
        DownloadPhase::ResolvingPackage => {
            match event {
                DownloadEvent::PackagesListed { packages } => {
                    resolve_step(req, packages)
                },
                _ => vstd::pervasive::unreached(),
            }
        },
        DownloadPhase::ListingFiles { package } => {
            match event {
                DownloadEvent::FilesListed { files } => {
                    listing_step(req, package, files)
                },
                _ => vstd::pervasive::unreached(),
            }
        },
        DownloadPhase::Transferring { files, next, outputs } => {
            match event {
                DownloadEvent::FileFetched { status, body } => {
                    transfer_step(req, files, next, outputs, status, body)
                },
                _ => vstd::pervasive::unreached(),
            }
        },
        DownloadPhase::Complete { .. } => vstd::pervasive::unreached(),
        DownloadPhase::Failed { .. } => vstd::pervasive::unreached(),
    }
}

/// Resolves the wanted package out of the listing answer.
fn resolve_step(req: &DownloadRequest, packages: Vec<PackageInfo>) -> (r: (
    DownloadPhase,
    DownloadAction,
))
    ensures
        phase_wf(r.0),
        resolve_transition(*req, packages@, r.0, r.1),
{
    match first_package(packages) {
        Err(e) => (DownloadPhase::Failed { error: e }, DownloadAction::Finish),
        Ok(package) => {
            let suffix = package_files_suffix(package.id);
            let path = packages_path(req.project_id.as_str(), suffix.as_str());
            (
                DownloadPhase::ListingFiles { package },
                DownloadAction::ListFiles { path },
            )
        },
    }
}

/// Enriches and filters the file listing answer, and puts the first
/// selected file in flight.
fn listing_step(req: &DownloadRequest, package: PackageInfo, files: Vec<PackageFileInfo>) -> (r: (
    DownloadPhase,
    DownloadAction,
))
    ensures
        phase_wf(r.0),
        req.selector.wf() ==> listing_transition(*req, package, files@, r.0, r.1),
{
    let ghost files_in = files@;
    let enriched = enrich_package_files(files, &package);
    let selected = crate::filter::select_files(enriched, &req.selector);
    proof {
        let enr = spec_enrich(files_in, package);
        assert forall|i: int| 0 <= i < selected@.len() implies (#[trigger] selected@[i]).version
            is Some && selected@[i].name is Some by {
            assert(enr.contains(selected@[i]));
            let j = choose|j: int| 0 <= j < enr.len() && enr[j] == selected@[i];
            assert(enr[j] == enriched_file(files_in[j], package));
        }
    }
    if selected.len() == 0 {
        (
            DownloadPhase::Complete { outputs: Vec::new() },
            DownloadAction::Finish,
        )
    } else {
        let url_path = fetch_url_path(req, &selected[0]);
        let output_path = resolve_output_file(
            req.output_dir.as_str(),
            req.output_dir_is_dir,
            selected[0].file_name.as_str(),
        );
        (
            DownloadPhase::Transferring { files: selected, next: 0, outputs: Vec::new() },
            DownloadAction::FetchFile { url_path, output_path },
        )
    }
}

/// Judges one fetch answer and advances or aborts the batch.
fn transfer_step(
    req: &DownloadRequest,
    files: Vec<PackageFileInfo>,
    next: usize,
    outputs: Vec<String>,
    status: u16,
    body: String,
) -> (r: (DownloadPhase, DownloadAction))
    requires
        next < files@.len(),
        outputs@.len() == next,
        forall|i: int|
            0 <= i < files@.len() ==> (#[trigger] files@[i]).version is Some && files@[i].name
                is Some,
    ensures
        phase_wf(r.0),
        transfer_transition(*req, files@, next as int, outputs@, status, body@, r.0, r.1),
{
    if status != 200 {
        (
            DownloadPhase::Failed { error: GlabuError::DownloadFailed { body } },
            DownloadAction::Finish,
        )
    } else {
        let written = resolve_output_file(
            req.output_dir.as_str(),
            req.output_dir_is_dir,
            files[next].file_name.as_str(),
        );
        let mut outputs = outputs;
        let ghost prev = outputs@;
        outputs.push(written);
        proof {
            assert(strings_view(outputs@) =~= strings_view(prev).push(
                file_output_path(*req, files@[next as int]),
            ));
        }
        if next == files.len() - 1 {
            (DownloadPhase::Complete { outputs }, DownloadAction::Finish)
        } else {
            let url_path = fetch_url_path(req, &files[next + 1]);
            let output_path = resolve_output_file(
                req.output_dir.as_str(),
                req.output_dir_is_dir,
                files[next + 1].file_name.as_str(),
            );
            (
                DownloadPhase::Transferring { files, next: next + 1, outputs },
                DownloadAction::FetchFile { url_path, output_path },
            )
        }
    }
}

/// The remote path of one enriched file, from its stamped name and
/// version.
fn fetch_url_path(req: &DownloadRequest, file: &PackageFileInfo) -> (r: String)
    requires
        file.version is Some,
        file.name is Some,
    ensures
        r@ == file_url_path(*req, *file),
{
    generic_package_path(
        req.project_id.as_str(),
        file.name.as_ref().unwrap().as_str(),
        file.version.as_ref().unwrap().as_str(),
        file.file_name.as_str(),
    )
}

} // verus!

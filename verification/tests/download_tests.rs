use glabu::download::{
    download_start, download_step, DownloadAction, DownloadEvent, DownloadPhase, DownloadRequest,
};
use glabu::error::GlabuError;
use glabu::filter::make_filter;
use glabu::models::{PackageFileInfo, PackageInfo};

fn package(id: u64, name: &str, version: &str, created_at: &str) -> PackageInfo {
    PackageInfo {
        id,
        name: String::from(name),
        version: String::from(version),
        tags: vec![],
        created_at: Some(String::from(created_at)),
        last_downloaded_at: None,
        package_type: Some(String::from("generic")),
        status: Some(String::from("default")),
    }
}

fn bare_file(id: u64, name: &str) -> PackageFileInfo {
    PackageFileInfo {
        id,
        package_id: 0,
        created_at: String::from("2025-01-02T00:00:00Z"),
        file_name: String::from(name),
        size: None,
        file_md5: None,
        file_sha1: None,
        file_sha256: None,
        version: None,
        name: None,
    }
}

fn request(version: Option<&str>, pattern: &str) -> DownloadRequest {
    DownloadRequest {
        project_id: String::from("68749765"),
        package_name: String::from("demo"),
        package_version: version.map(String::from),
        selector: make_filter(Some(String::from(pattern)), None).unwrap(),
        output_dir: String::from("/out"),
        output_dir_is_dir: true,
    }
}

fn query_pairs(action: &DownloadAction) -> Vec<(&str, &str)> {
    match action {
        DownloadAction::ListPackages { query, .. } => {
            query.iter().map(|p| (p.0.as_str(), p.1.as_str())).collect()
        }
        _ => panic!("expected a package listing action"),
    }
}

#[test]
fn explicit_version_asks_for_name_and_version() {
    let req = request(Some("1.0"), "linux");
    let (phase, action) = download_start(&req);
    assert!(matches!(phase, DownloadPhase::ResolvingPackage));
    match &action {
        DownloadAction::ListPackages { path, .. } => {
            assert_eq!(path, "/projects/68749765/packages");
        }
        _ => panic!("expected a package listing action"),
    }
    assert_eq!(
        query_pairs(&action),
        vec![
            ("package_name", "demo"),
            ("package_version", "1.0"),
            ("per_page", "100"),
        ]
    );
}

#[test]
fn latest_download_asks_for_the_newest_single_package() {
    let req = request(None, "linux");
    let (_, action) = download_start(&req);
    assert_eq!(
        query_pairs(&action),
        vec![
            ("order_by", "created_at"),
            ("sort", "desc"),
            ("package_name", "demo"),
            ("per_page", "1"),
            ("page", "1"),
        ]
    );
}

#[test]
fn missing_package_fails_before_any_file_listing() {
    let req = request(Some("9.9"), "linux");
    let (phase, _) = download_start(&req);
    let (phase, action) =
        download_step(&req, phase, DownloadEvent::PackagesListed { packages: vec![] });
    assert!(matches!(
        phase,
        DownloadPhase::Failed { error: GlabuError::PackageNotFound }
    ));
    assert!(matches!(action, DownloadAction::Finish));
}

#[test]
fn no_matching_file_is_an_empty_success() {
    let req = request(Some("1.0"), "never-matches");
    let (phase, _) = download_start(&req);
    let (phase, _) = download_step(
        &req,
        phase,
        DownloadEvent::PackagesListed { packages: vec![package(101, "demo", "1.0", "t1")] },
    );
    let (phase, action) = download_step(
        &req,
        phase,
        DownloadEvent::FilesListed {
            files: vec![bare_file(1, "demo-linux.tgz"), bare_file(2, "demo-win.exe")],
        },
    );
    match phase {
        DownloadPhase::Complete { outputs } => assert!(outputs.is_empty()),
        _ => panic!("expected completion with zero downloads"),
    }
    assert!(matches!(action, DownloadAction::Finish));
}

#[test]
fn version_resolution_drives_the_download_path() {
    // The package "demo" has versions 1.0 (demo-linux.tgz, demo-win.exe)
    // and 2.0 (demo-linux.tgz).  Version 1.0 with pattern "linux" pulls
    // the file from the 1.0 path.
    let req = request(Some("1.0"), "linux");
    let (phase, _) = download_start(&req);
    let (phase, action) = download_step(
        &req,
        phase,
        DownloadEvent::PackagesListed { packages: vec![package(101, "demo", "1.0", "t1")] },
    );
    match &action {
        DownloadAction::ListFiles { path } => {
            assert_eq!(path, "/projects/68749765/packages/101/package_files");
        }
        _ => panic!("expected a file listing action"),
    }
    let (phase, action) = download_step(
        &req,
        phase,
        DownloadEvent::FilesListed {
            files: vec![bare_file(1, "demo-linux.tgz"), bare_file(2, "demo-win.exe")],
        },
    );
    match &action {
        DownloadAction::FetchFile { url_path, output_path } => {
            assert_eq!(
                url_path,
                "/projects/68749765/packages/generic/demo/1.0/demo-linux.tgz"
            );
            assert_eq!(output_path, "/out/demo-linux.tgz");
        }
        _ => panic!("expected a fetch action"),
    }
    let (phase, action) = download_step(
        &req,
        phase,
        DownloadEvent::FileFetched { status: 200, body: String::new() },
    );
    match phase {
        DownloadPhase::Complete { outputs } => {
            assert_eq!(outputs, vec![String::from("/out/demo-linux.tgz")]);
        }
        _ => panic!("expected completion"),
    }
    assert!(matches!(action, DownloadAction::Finish));

    // The same pattern under "latest" resolves 2.0 (the newer one) and
    // pulls the same filename from the 2.0 path.
    let req = request(None, "linux");
    let (phase, _) = download_start(&req);
    let (phase, _) = download_step(
        &req,
        phase,
        DownloadEvent::PackagesListed { packages: vec![package(202, "demo", "2.0", "t2")] },
    );
    let (_, action) = download_step(
        &req,
        phase,
        DownloadEvent::FilesListed { files: vec![bare_file(3, "demo-linux.tgz")] },
    );
    match &action {
        DownloadAction::FetchFile { url_path, .. } => {
            assert_eq!(
                url_path,
                "/projects/68749765/packages/generic/demo/2.0/demo-linux.tgz"
            );
        }
        _ => panic!("expected a fetch action"),
    }
}

#[test]
fn a_failing_fetch_aborts_the_whole_batch() {
    let req = request(Some("1.0"), "demo");
    let (phase, _) = download_start(&req);
    let (phase, _) = download_step(
        &req,
        phase,
        DownloadEvent::PackagesListed { packages: vec![package(101, "demo", "1.0", "t1")] },
    );
    let (phase, _) = download_step(
        &req,
        phase,
        DownloadEvent::FilesListed {
            files: vec![bare_file(1, "demo-linux.tgz"), bare_file(2, "demo-win.exe")],
        },
    );
    let (phase, action) = download_step(
        &req,
        phase,
        DownloadEvent::FileFetched { status: 200, body: String::new() },
    );
    assert!(matches!(action, DownloadAction::FetchFile { .. }));
    let (phase, action) = download_step(
        &req,
        phase,
        DownloadEvent::FileFetched { status: 500, body: String::from("oops") },
    );
    match phase {
        DownloadPhase::Failed { error } => {
            assert_eq!(error.message(), "DownloadFileErr: oops");
        }
        _ => panic!("expected failure"),
    }
    assert!(matches!(action, DownloadAction::Finish));
}

#[test]
fn multiple_files_are_fetched_in_order() {
    let req = request(Some("1.0"), "demo");
    let (phase, _) = download_start(&req);
    let (phase, _) = download_step(
        &req,
        phase,
        DownloadEvent::PackagesListed { packages: vec![package(101, "demo", "1.0", "t1")] },
    );
    let (phase, action) = download_step(
        &req,
        phase,
        DownloadEvent::FilesListed {
            files: vec![bare_file(1, "demo-linux.tgz"), bare_file(2, "demo-win.exe")],
        },
    );
    match &action {
        DownloadAction::FetchFile { output_path, .. } => {
            assert_eq!(output_path, "/out/demo-linux.tgz");
        }
        _ => panic!("expected a fetch action"),
    }
    let (phase, action) = download_step(
        &req,
        phase,
        DownloadEvent::FileFetched { status: 200, body: String::new() },
    );
    match &action {
        DownloadAction::FetchFile { output_path, .. } => {
            assert_eq!(output_path, "/out/demo-win.exe");
        }
        _ => panic!("expected a second fetch action"),
    }
    let (phase, action) = download_step(
        &req,
        phase,
        DownloadEvent::FileFetched { status: 200, body: String::new() },
    );
    match phase {
        DownloadPhase::Complete { outputs } => {
            assert_eq!(
                outputs,
                vec![String::from("/out/demo-linux.tgz"), String::from("/out/demo-win.exe")]
            );
        }
        _ => panic!("expected completion"),
    }
    assert!(matches!(action, DownloadAction::Finish));
}

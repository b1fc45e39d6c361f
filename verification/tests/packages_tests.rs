use glabu::error::GlabuError;
use glabu::models::{PackageFileInfo, PackageInfo};
use glabu::packages::{
    check_delete_status, check_download_status, check_upload_status, enrich_package_files,
    first_package, resolve_output_file, GenericPackageOp,
};

fn package(id: u64, name: &str, version: &str) -> PackageInfo {
    PackageInfo {
        id,
        name: String::from(name),
        version: String::from(version),
        tags: vec![],
        created_at: Some(String::from("2025-01-01T00:00:00Z")),
        last_downloaded_at: None,
        package_type: Some(String::from("generic")),
        status: Some(String::from("default")),
    }
}

fn bare_file(id: u64, name: &str) -> PackageFileInfo {
    PackageFileInfo {
        id,
        package_id: 9,
        created_at: String::from("2025-01-02T00:00:00Z"),
        file_name: String::from(name),
        size: Some(7),
        file_md5: Some(String::from("d41d8cd98f00b204e9800998ecf8427e")),
        file_sha1: None,
        file_sha256: None,
        version: None,
        name: None,
    }
}

#[test]
fn enrichment_stamps_version_and_name_on_every_file() {
    let pkg = package(9, "demo", "1.0");
    let files = vec![bare_file(1, "demo-linux.tgz"), bare_file(2, "demo-win.exe")];
    let enriched = enrich_package_files(files, &pkg);
    assert_eq!(enriched.len(), 2);
    for f in &enriched {
        assert_eq!(f.version.as_deref(), Some("1.0"));
        assert_eq!(f.name.as_deref(), Some("demo"));
    }
    assert_eq!(enriched[0].id, 1);
    assert_eq!(enriched[0].file_name, "demo-linux.tgz");
    assert_eq!(enriched[0].size, Some(7));
    assert_eq!(
        enriched[0].file_md5.as_deref(),
        Some("d41d8cd98f00b204e9800998ecf8427e")
    );
    assert_eq!(enriched[1].file_name, "demo-win.exe");
}

#[test]
fn empty_listing_is_package_not_found() {
    let err = first_package(vec![]).unwrap_err();
    assert!(matches!(err, GlabuError::PackageNotFound));
}

#[test]
fn first_package_takes_the_first_record() {
    let p = first_package(vec![package(1, "demo", "1.0"), package(2, "demo", "2.0")]).unwrap();
    assert_eq!(p.id, 1);
    assert_eq!(p.version, "1.0");
}

#[test]
fn upload_succeeds_only_on_201() {
    assert!(check_upload_status(201, String::new()).is_ok());
    let err = check_upload_status(200, String::from("unexpected")).unwrap_err();
    assert_eq!(
        err.message(),
        "Upload failed with status: 200, and message: unexpected"
    );
    let err = check_upload_status(403, String::from("denied")).unwrap_err();
    assert!(err.message().contains("denied"));
}

#[test]
fn download_succeeds_only_on_200() {
    assert!(check_download_status(200, String::new()).is_ok());
    let err = check_download_status(404, String::from("no such file")).unwrap_err();
    assert_eq!(err.message(), "DownloadFileErr: no such file");
}

#[test]
fn deletion_succeeds_only_on_200() {
    assert!(check_delete_status(200).is_ok());
    let err = check_delete_status(202).unwrap_err();
    assert!(matches!(err, GlabuError::DeleteFailed { status: 202 }));
}

#[test]
fn generic_package_op_builders() {
    let op = GenericPackageOp::new("61010542", "glabu", "");
    assert_eq!(op.project_id, "61010542");
    assert_eq!(op.package_name, "glabu");
    assert_eq!(op.file_name, "");
    assert!(op.package_version.is_none());
    let op = op
        .package_name("tool")
        .package_version(Some(String::from("0.1")))
        .file_name("tool-linux");
    assert_eq!(op.package_name, "tool");
    assert_eq!(op.package_version.as_deref(), Some("0.1"));
    assert_eq!(op.file_name, "tool-linux");
}

#[test]
fn upload_path_matches_the_registry_layout() {
    let op = GenericPackageOp::new("61010542", "glabu", "");
    assert_eq!(
        op.upload_url_path("0.1", "glabu-linux-aarch64"),
        "/projects/61010542/packages/generic/glabu/0.1/glabu-linux-aarch64"
    );
}

#[test]
fn success_statuses_are_the_2xx_range() {
    assert!(glabu::is_success_status(200));
    assert!(glabu::is_success_status(299));
    assert!(!glabu::is_success_status(199));
    assert!(!glabu::is_success_status(300));
    assert!(!glabu::is_success_status(404));
}

#[test]
fn output_paths_fall_back_to_the_fixed_directory() {
    assert_eq!(resolve_output_file("/data", true, "a.tgz"), "/data/a.tgz");
    assert_eq!(resolve_output_file("/nope", false, "a.tgz"), "/tmp/a.tgz");
}

use glabu::error::GlabuError;
use glabu::filter::{
    make_filter, select_files, select_package_files, FileSelector, FilenameFilter, PatternFilter,
};
use glabu::models::PackageFileInfo;

fn file(id: u64, name: &str) -> PackageFileInfo {
    PackageFileInfo {
        id,
        package_id: 1,
        created_at: String::from("2025-01-01T00:00:00Z"),
        file_name: String::from(name),
        size: Some(42),
        file_md5: None,
        file_sha1: None,
        file_sha256: None,
        version: None,
        name: None,
    }
}

fn names(files: &[PackageFileInfo]) -> Vec<&str> {
    files.iter().map(|f| f.file_name.as_str()).collect()
}

#[test]
fn exact_name_selects_exactly_that_subset() {
    let files = vec![file(1, "demo-linux.tgz"), file(2, "demo-win.exe"), file(3, "demo-linux.tgz")];
    let sel = make_filter(None, Some(String::from("demo-linux.tgz"))).unwrap();
    let kept = select_files(files, &sel);
    assert_eq!(names(&kept), vec!["demo-linux.tgz", "demo-linux.tgz"]);
}

#[test]
fn pattern_matches_anywhere_in_the_filename() {
    let files = vec![file(1, "demo-linux.tgz"), file(2, "demo-win.exe")];
    let sel = make_filter(Some(String::from("linux")), None).unwrap();
    let kept = select_files(files, &sel);
    assert_eq!(names(&kept), vec!["demo-linux.tgz"]);
}

#[test]
fn pattern_can_anchor_itself() {
    let files = vec![file(1, "a.tgz"), file(2, "a.tgz.bak"), file(3, "b.tgz")];
    let sel = make_filter(Some(String::from(r"\.tgz$")), None).unwrap();
    let kept = select_files(files, &sel);
    assert_eq!(names(&kept), vec!["a.tgz", "b.tgz"]);
}

#[test]
fn pattern_takes_precedence_over_filename() {
    let files = vec![file(1, "demo-linux.tgz"), file(2, "demo-win.exe")];
    let sel = make_filter(Some(String::from("win")), Some(String::from("demo-linux.tgz"))).unwrap();
    let kept = select_files(files, &sel);
    assert_eq!(names(&kept), vec!["demo-win.exe"]);
}

#[test]
fn neither_pattern_nor_filename_is_a_configuration_error() {
    let err = make_filter(None, None).unwrap_err();
    assert!(matches!(err, GlabuError::ConfigurationError { .. }));
    assert_eq!(
        err.message(),
        "ConfigurationError: Either pattern or filename must be provided"
    );
}

#[test]
fn a_rejected_pattern_is_a_configuration_error() {
    let err = make_filter(Some(String::from("foo(bar")), None).unwrap_err();
    assert!(matches!(err, GlabuError::ConfigurationError { .. }));
}

#[test]
fn individual_filters_judge_single_files() {
    let exact = FilenameFilter(String::from("demo-win.exe"));
    assert!(exact.filter(&file(1, "demo-win.exe")));
    assert!(!exact.filter(&file(1, "demo-linux.tgz")));
    let pattern = PatternFilter(String::from("win"));
    assert!(pattern.filter(&file(1, "demo-win.exe")));
    assert!(!pattern.filter(&file(1, "demo-linux.tgz")));
}

#[test]
fn selector_enum_variants_are_observable() {
    let sel = make_filter(Some(String::from("x")), None).unwrap();
    assert!(matches!(sel, FileSelector::Pattern(_)));
    let sel = make_filter(None, Some(String::from("x"))).unwrap();
    assert!(matches!(sel, FileSelector::ExactName(_)));
}

#[test]
fn convenience_selection_goes_through_the_same_rules() {
    let files = vec![file(1, "demo-linux.tgz"), file(2, "demo-win.exe")];
    let kept = select_package_files(files, Some(String::from("linux")), None).unwrap();
    assert_eq!(names(&kept), vec!["demo-linux.tgz"]);
    assert!(select_package_files(vec![], None, None).is_err());
}

#[test]
fn empty_selection_is_not_an_error() {
    let files = vec![file(1, "demo-win.exe")];
    let kept = select_package_files(files, Some(String::from("linux")), None).unwrap();
    assert!(kept.is_empty());
}

use glabu::paths::{
    api_url, generic_package_path, graphql_url, group_path, group_path_by_id,
    latest_release_path, package_delete_suffix, package_file_delete_suffix, package_files_suffix,
    packages_path, project_path, releases_path, remote_mirrors_path, user_path,
};

#[test]
fn api_urls_sit_under_the_versioned_prefix() {
    assert_eq!(
        api_url("https://gitlab.com", "/projects/1"),
        "https://gitlab.com/api/v4/projects/1"
    );
    assert_eq!(graphql_url("https://gitlab.com"), "https://gitlab.com/api/graphql");
}

#[test]
fn project_and_package_paths() {
    assert_eq!(project_path("puterize%2Fglabu"), "/projects/puterize%2Fglabu");
    assert_eq!(packages_path("68749765", ""), "/projects/68749765/packages");
    assert_eq!(
        packages_path("68749765", "/12/package_files"),
        "/projects/68749765/packages/12/package_files"
    );
    assert_eq!(package_files_suffix(12), "/12/package_files");
    assert_eq!(package_delete_suffix(12), "/12");
    assert_eq!(package_file_delete_suffix(12, 34), "/12/package_files/34");
}

#[test]
fn generic_package_file_path() {
    assert_eq!(
        generic_package_path("68749765", "demo", "1.0", "demo-linux.tgz"),
        "/projects/68749765/packages/generic/demo/1.0/demo-linux.tgz"
    );
}

#[test]
fn mirror_release_group_and_user_paths() {
    assert_eq!(remote_mirrors_path(7), "/projects/7/remote_mirrors");
    assert_eq!(releases_path(7), "/projects/7/releases");
    assert_eq!(latest_release_path(7), "/projects/7/releases/permalink/latest");
    assert_eq!(group_path("puterize"), "/groups/puterize");
    assert_eq!(group_path_by_id(63741244), "/groups/63741244");
    assert_eq!(user_path(), "/user");
}

use glabu::models::SortDirection;
use glabu::query::{
    bool_value, PackageStatus, PackageType, ProjectPackageListOp, ProjectPackageListOrderBy,
};

fn pairs(v: &[(String, String)]) -> Vec<(&str, &str)> {
    v.iter().map(|p| (p.0.as_str(), p.1.as_str())).collect()
}

#[test]
fn fresh_operation_only_sends_the_page_size() {
    let op = ProjectPackageListOp::new("68749765");
    assert_eq!(pairs(&op.query_params()), vec![("per_page", "100")]);
}

#[test]
fn absent_fields_are_omitted_entirely() {
    let op = ProjectPackageListOp::new("1").per_page(None);
    assert_eq!(op.query_params().len(), 0);
}

#[test]
fn set_fields_appear_in_fixed_order() {
    let op = ProjectPackageListOp::new("1")
        .order_by(Some(ProjectPackageListOrderBy::Name))
        .sort(Some(SortDirection::Asc))
        .package_type(Some(PackageType::Npm))
        .package_name(Some(String::from("pack1")))
        .package_version(Some(String::from("1.55.0")))
        .include_versionless(Some(true))
        .status(Some(PackageStatus::Hidden))
        .per_page(Some(20))
        .page(Some(2));
    assert_eq!(
        pairs(&op.query_params()),
        vec![
            ("order_by", "name"),
            ("sort", "asc"),
            ("package_type", "npm"),
            ("package_name", "pack1"),
            ("package_version", "1.55.0"),
            ("include_versionless", "true"),
            ("status", "hidden"),
            ("per_page", "20"),
            ("page", "2"),
        ]
    );
}

#[test]
fn latest_asks_for_the_newest_single_package() {
    let mut op = ProjectPackageListOp::new("1").package_name(Some(String::from("demo")));
    op.latest();
    assert_eq!(
        pairs(&op.query_params()),
        vec![
            ("order_by", "created_at"),
            ("sort", "desc"),
            ("package_name", "demo"),
            ("per_page", "1"),
            ("page", "1"),
        ]
    );
}

#[test]
fn enum_wire_forms() {
    assert_eq!(ProjectPackageListOrderBy::CreatedAt.query_value(), "created_at");
    assert_eq!(ProjectPackageListOrderBy::Type.query_value(), "type");
    assert_eq!(SortDirection::Desc.query_value(), "desc");
    assert_eq!(PackageType::TerraformModule.query_value(), "terraform_module");
    assert_eq!(PackageType::Golang.query_value(), "golang");
    assert_eq!(PackageStatus::PendingDestruction.query_value(), "pending_destruction");
    assert_eq!(PackageStatus::Default.query_value(), "default");
    assert_eq!(bool_value(true), "true");
    assert_eq!(bool_value(false), "false");
}

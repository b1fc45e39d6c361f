use glabu::encode::{encode_project_id, query_string};

#[test]
fn encode_replaces_each_slash() {
    assert_eq!(encode_project_id("puterize/glabu"), "puterize%2Fglabu");
    assert_eq!(encode_project_id("a/b/c"), "a%2Fb%2Fc");
}

#[test]
fn encode_leaves_numeric_ids_alone() {
    assert_eq!(encode_project_id("68749765"), "68749765");
}

#[test]
fn encode_changes_nothing_else() {
    assert_eq!(encode_project_id("name-with.dots_and~marks"), "name-with.dots_and~marks");
    assert_eq!(encode_project_id(""), "");
    assert_eq!(encode_project_id("sp ace/x"), "sp ace%2Fx");
}

#[test]
fn query_strings_percent_encode_both_sides() {
    let empty: Vec<(String, String)> = vec![];
    assert_eq!(query_string(&empty), "");
    let one = vec![(String::from("search"), String::from("a b+c"))];
    assert_eq!(query_string(&one), "?search=a%20b%2Bc");
    let two = vec![
        (String::from("package_name"), String::from("demo/x")),
        (String::from("per_page"), String::from("100")),
    ];
    assert_eq!(query_string(&two), "?package_name=demo%2Fx&per_page=100");
}

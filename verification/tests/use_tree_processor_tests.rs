use fnmock::use_tree_processor::{
    double_name, is_supported, process_inline, process_use_tree, UseTree,
};

fn name(s: &str) -> UseTree {
    UseTree::Name(s.to_string())
}

fn path(segment: &str, rest: UseTree) -> UseTree {
    UseTree::Path(segment.to_string(), Box::new(rest))
}

fn pair(a: &str, b: &str) -> (String, String) {
    (a.to_string(), b.to_string())
}

fn strings(list: &[&str]) -> Vec<String> {
    list.iter().map(|s| s.to_string()).collect()
}

#[test]
fn double_names() {
    assert_eq!(double_name("fetch_user", "_mock"), "fetch_user_mock");
    assert_eq!(double_name("get_config", "_stub"), "get_config_stub");
    assert_eq!(double_name("", "_fake"), "_fake");
    assert_eq!(double_name("f", ""), "f");
}

#[test]
fn globs_and_renames_are_not_supported() {
    assert!(is_supported(&name("f")));
    assert!(is_supported(&path("a", path("b", name("f")))));
    assert!(is_supported(&UseTree::Group(vec![])));
    assert!(is_supported(&path("a", UseTree::Group(vec![name("f"), path("b", name("g"))]))));
    assert!(!is_supported(&UseTree::Glob));
    assert!(!is_supported(&UseTree::Rename("f".to_string(), "g".to_string())));
    assert!(!is_supported(&path("a", UseTree::Glob)));
    assert!(!is_supported(&path("a", UseTree::Group(vec![name("f"), UseTree::Glob]))));
    assert!(!is_supported(&UseTree::Group(vec![
        path("b", UseTree::Rename("f".to_string(), "g".to_string())),
        name("f"),
    ])));
}

#[test]
fn a_simple_import_maps_one_function() {
    let tree = path("crate", path("db", name("fetch_user")));
    let mut base_path = Vec::new();
    let found = process_use_tree(&tree, &mut base_path, "_mock");
    assert_eq!(found, vec![pair("fetch_user", "fetch_user_mock")]);
    assert_eq!(base_path, strings(&["crate", "db"]));
}

#[test]
fn a_bare_name_has_no_path() {
    let mut base_path = strings(&["kept"]);
    let found = process_use_tree(&name("f"), &mut base_path, "_fake");
    assert_eq!(found, vec![pair("f", "f_fake")]);
    assert_eq!(base_path, strings(&["kept"]));
}

#[test]
fn a_grouped_import_maps_each_function_in_order() {
    let tree = path(
        "service",
        UseTree::Group(vec![name("fetch_user"), name("send_email"), name("fetch_notes")]),
    );
    let mut base_path = Vec::new();
    let found = process_use_tree(&tree, &mut base_path, "_mock");
    assert_eq!(
        found,
        vec![
            pair("fetch_user", "fetch_user_mock"),
            pair("send_email", "send_email_mock"),
            pair("fetch_notes", "fetch_notes_mock"),
        ]
    );
    assert_eq!(base_path, strings(&["service"]));
}

#[test]
fn paths_inside_a_group_do_not_reach_the_base_path() {
    let tree = path(
        "a",
        UseTree::Group(vec![
            path("b", name("f")),
            UseTree::Group(vec![name("g"), path("c", path("d", name("h")))]),
            UseTree::Group(vec![]),
        ]),
    );
    let mut base_path = strings(&["root"]);
    let found = process_use_tree(&tree, &mut base_path, "_mock");
    assert_eq!(found, vec![pair("f", "f_mock"), pair("g", "g_mock"), pair("h", "h_mock")]);
    assert_eq!(base_path, strings(&["root", "a"]));
}

#[test]
fn an_empty_group_maps_nothing() {
    let mut base_path = Vec::new();
    let found = process_use_tree(&UseTree::Group(vec![]), &mut base_path, "_mock");
    assert!(found.is_empty());
    assert!(base_path.is_empty());
}

#[test]
fn inline_paths_get_their_last_segment_renamed() {
    assert_eq!(process_inline(&strings(&["divide"]), "_mock"), Some(strings(&["divide_mock"])));
    assert_eq!(
        process_inline(&strings(&["crate", "math", "sum"]), "_mock"),
        Some(strings(&["crate", "math", "sum_mock"]))
    );
    assert_eq!(
        process_inline(&strings(&["db", "fetch_user"]), "_fake"),
        Some(strings(&["db", "fetch_user_fake"]))
    );
    assert_eq!(process_inline(&strings(&[]), "_mock"), None);
}

use muxde::config::ConfigValue;
use muxde::iterate_config;

fn leaf(name: &str, binding: &str) -> (String, ConfigValue) {
    (String::from(name), ConfigValue::Str(String::from(binding)))
}

fn table(name: &str, entries: Vec<(String, ConfigValue)>) -> (String, ConfigValue) {
    (String::from(name), ConfigValue::Table(entries))
}

/// The tree {"quit":"Q", "window":{"new":"N"}} from the flat and the nested
/// side.
fn sample_tree() -> Vec<(String, ConfigValue)> {
    vec![leaf("quit", "Q"), table("window", vec![leaf("new", "N")])]
}

#[test]
fn full_match_flat_leaf() {
    let tree = sample_tree();
    let r = iterate_config(&tree, "Q");
    assert_eq!(r, Some((String::from("quit"), String::from("Q"), true)));
}

#[test]
fn full_match_nested_leaf() {
    let tree = sample_tree();
    let r = iterate_config(&tree, "N");
    assert_eq!(r, Some((String::from("new"), String::from("N"), true)));
}

#[test]
fn unknown_query_matches_nothing() {
    let tree = sample_tree();
    assert_eq!(iterate_config(&tree, "X"), None);
}

#[test]
fn partial_match_reports_whole_binding() {
    let tree = vec![leaf("new-window", "nw"), leaf("quit", "qq")];
    let r = iterate_config(&tree, "n");
    assert_eq!(r, Some((String::from("new-window"), String::from("nw"), false)));
    // concatenating the query and the remainder reproduces the binding
    let (_, binding, _) = r.unwrap();
    let remainder: String = binding.chars().skip(1).collect();
    assert_eq!(format!("{}{}", "n", remainder), "nw");
}

#[test]
fn empty_query_matches_nothing() {
    let tree = sample_tree();
    assert_eq!(iterate_config(&tree, ""), None);
}

#[test]
fn query_longer_than_every_binding_matches_nothing() {
    let tree = sample_tree();
    assert_eq!(iterate_config(&tree, "QQQ"), None);
}

#[test]
fn first_leaf_in_traversal_order_wins() {
    // both leaves match the query as a prefix; the earlier one is reported
    let tree = vec![leaf("alpha", "ab"), leaf("beta", "ac")];
    let r = iterate_config(&tree, "a");
    assert_eq!(r, Some((String::from("alpha"), String::from("ab"), false)));
}

#[test]
fn exact_match_after_partial_leaf_reports_partial() {
    // an earlier leaf properly extends the query, so the walk stops there
    let tree = vec![leaf("window", "Qx"), leaf("quit", "Q")];
    let r = iterate_config(&tree, "Q");
    assert_eq!(r, Some((String::from("window"), String::from("Qx"), false)));
}

#[test]
fn non_string_leaves_are_skipped() {
    let tree = vec![
        (String::from("count"), ConfigValue::Int(3)),
        leaf("quit", "Q"),
    ];
    let r = iterate_config(&tree, "Q");
    assert_eq!(r, Some((String::from("quit"), String::from("Q"), true)));
}

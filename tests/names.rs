use tsos::names::{candidates, first_hit, join, provider_leaf};

#[test]
fn leaf_of_plain_name() {
    assert_eq!(provider_leaf("provider"), Some(String::from("provider")));
}

#[test]
fn leaf_drops_directories() {
    assert_eq!(provider_leaf("a/b/provider"), Some(String::from("provider")));
    assert_eq!(provider_leaf("../../bin/sh"), Some(String::from("sh")));
    assert_eq!(provider_leaf("/usr/lib/tsos/vault"), Some(String::from("vault")));
}

#[test]
fn leaf_refuses_empty_and_dots() {
    assert_eq!(provider_leaf(""), None);
    assert_eq!(provider_leaf("."), None);
    assert_eq!(provider_leaf(".."), None);
    assert_eq!(provider_leaf("a/"), None);
    assert_eq!(provider_leaf("a/.."), None);
    assert_eq!(provider_leaf("a/."), None);
    assert_eq!(provider_leaf("/"), None);
}

#[test]
fn leaf_keeps_names_with_dots() {
    assert_eq!(provider_leaf("..."), Some(String::from("...")));
    assert_eq!(provider_leaf("x/.hidden"), Some(String::from(".hidden")));
}

#[test]
fn join_adds_one_separator() {
    assert_eq!(join("P/a", "provider"), "P/a/provider");
    assert_eq!(join("P/a/", "provider"), "P/a/provider");
    assert_eq!(join("", "provider"), "provider");
    assert_eq!(join("P/a", "/abs"), "/abs");
}

#[test]
fn first_hit_picks_earliest() {
    assert_eq!(first_hit(&vec![false, true, true]), Some(1));
    assert_eq!(first_hit(&vec![true, false]), Some(0));
    assert_eq!(first_hit(&vec![false, false]), None);
    assert_eq!(first_hit(&vec![]), None);
}

#[test]
fn candidates_follow_directory_order() {
    let dirs = vec![String::from("P/b"), String::from("P/a"), String::from("/etc/tsos.d")];
    assert_eq!(
        candidates(&dirs, "provider"),
        vec![
            String::from("P/b/provider"),
            String::from("P/a/provider"),
            String::from("/etc/tsos.d/provider"),
        ]
    );
}

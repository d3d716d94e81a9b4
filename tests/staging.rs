use std::collections::HashSet;
use tsos::tempdir::TempDir;

#[test]
fn reservation_template_has_prefix() {
    assert_eq!(TempDir::template("/tmp", "asdf"), "/tmp/asdf-XXXXXX");
    assert_eq!(TempDir::template("/tmp/", "jklo"), "/tmp/jklo-XXXXXX");
}

#[test]
fn minted_names_count_in_hex() {
    let mut dir = TempDir::new(String::from("/tmp/tsos-ab12CD"));
    assert_eq!(dir.path(), "/tmp/tsos-ab12CD");
    assert_eq!(dir.create_file("tsos-final"), Some(String::from("/tmp/tsos-ab12CD/tsos-final-00000000")));
    assert_eq!(dir.create_file("tsos-final"), Some(String::from("/tmp/tsos-ab12CD/tsos-final-00000001")));
    for _ in 2..255 {
        dir.create_file("x").unwrap();
    }
    assert_eq!(dir.create_file("test"), Some(String::from("/tmp/tsos-ab12CD/test-000000ff")));
    assert_eq!(dir.create_file("test"), Some(String::from("/tmp/tsos-ab12CD/test-00000100")));
}

#[test]
fn minted_names_are_unique() {
    let mut dir = TempDir::new(String::from("/tmp/test-000000"));
    let mut names = HashSet::new();
    for i in 0..100 {
        let prefix = if i % 2 == 0 { "tteeesstt" } else { "tteeesstt-0" };
        let name = dir.create_file(prefix).unwrap();
        assert!(names.insert(name), "Duplicate file name");
    }
    assert_eq!(names.len(), 100);
}

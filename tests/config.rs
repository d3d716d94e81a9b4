use tsos::config::{split, Config, Local};

fn local(env_path: Option<bool>, search_path: Option<Vec<&str>>) -> Local {
    Local {
        executable: String::from("/usr/bin/cat"),
        env_path,
        secrets: vec![(String::from("provider"), vec![String::from("source")])],
        search_path: search_path.map(|v| v.into_iter().map(String::from).collect()),
        uid: None,
        gid: None,
    }
}

#[test]
fn global_path_without_opt_in() {
    let c = Config::new(local(None, None), Some(String::from("P/b")));
    assert_eq!(c.global.search_path, vec![String::from("/etc/tsos.d"), String::from("/usr/lib/tsos")]);
    let c = Config::new(local(Some(false), None), Some(String::from("P/b")));
    assert_eq!(c.global.search_path, vec![String::from("/etc/tsos.d"), String::from("/usr/lib/tsos")]);
}

#[test]
fn global_path_with_opt_in() {
    let c = Config::new(local(Some(true), None), Some(String::from("P/b:P/c")));
    assert_eq!(
        c.global.search_path,
        vec![
            String::from("P/b"),
            String::from("P/c"),
            String::from("/etc/tsos.d"),
            String::from("/usr/lib/tsos"),
        ]
    );
    let c = Config::new(local(Some(true), None), None);
    assert_eq!(c.global.search_path, vec![String::from("/etc/tsos.d"), String::from("/usr/lib/tsos")]);
    assert_eq!(c.local.executable, "/usr/bin/cat");
}

#[test]
fn search_order_puts_local_first() {
    let c = Config::new(local(Some(true), Some(vec!["P/a", "P/b"])), Some(String::from("P/b")));
    assert_eq!(
        c.search_order(),
        vec![
            String::from("P/a"),
            String::from("P/b"),
            String::from("P/b"),
            String::from("/etc/tsos.d"),
            String::from("/usr/lib/tsos"),
        ]
    );
    let c = Config::new(local(None, None), None);
    assert_eq!(c.search_order(), vec![String::from("/etc/tsos.d"), String::from("/usr/lib/tsos")]);
}

#[test]
fn split_keeps_empty_pieces() {
    assert_eq!(split("a::b", ':'), vec![String::from("a"), String::new(), String::from("b")]);
    assert_eq!(split("", ':'), vec![String::new()]);
    assert_eq!(split("a:", ':'), vec![String::from("a"), String::new()]);
}

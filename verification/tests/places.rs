use card::credentials::{join, resolve_path, CredentialError, Environment};

fn environment(xdg: Option<&str>, home: Option<&str>) -> Environment {
    Environment { xdg_data_home: xdg.map(String::from), home: home.map(String::from) }
}

#[test]
fn the_data_directory_is_used_where_it_is_set() {
    let location = resolve_path(&environment(Some("/data"), Some("/home/u"))).unwrap();
    assert_eq!(location.directory, "/data/card");
    assert_eq!(location.file, "/data/card/key");
}

#[test]
fn the_home_directory_is_the_fallback() {
    let location = resolve_path(&environment(None, Some("/home/u"))).unwrap();
    assert_eq!(location.directory, "/home/u/.local/share/card");
    assert_eq!(location.file, "/home/u/.local/share/card/key");
}

#[test]
fn without_either_there_is_no_place() {
    assert!(resolve_path(&environment(None, None)).is_none());
}

#[test]
fn a_trailing_slash_is_not_doubled() {
    let under_data = resolve_path(&environment(Some("/data/"), None)).unwrap();
    assert_eq!(under_data.file, "/data/card/key");
    let under_root = resolve_path(&environment(None, Some("/"))).unwrap();
    assert_eq!(under_root.directory, "/.local/share/card");
    assert_eq!(under_root.file, "/.local/share/card/key");
}

#[test]
fn an_empty_variable_still_counts_as_set() {
    let location = resolve_path(&environment(Some(""), Some("/home/u"))).unwrap();
    assert_eq!(location.directory, "card");
    assert_eq!(location.file, "card/key");
}

#[test]
fn paths_are_joined_with_one_slash() {
    assert_eq!(join("a", "b"), "a/b");
    assert_eq!(join("a/", "b"), "a/b");
    assert_eq!(join("", "b"), "b");
    assert_eq!(join("/", "b"), "/b");
    assert_eq!(join("a", ""), "a/");
    assert_eq!(join("caf\u{e9}", "key"), "caf\u{e9}/key");
    assert_eq!(join("a//", "b/c"), "a//b/c");
}

#[test]
fn the_two_failures_of_the_store_differ() {
    assert_ne!(CredentialError::NotFound, CredentialError::Io { reason: String::new() });
    assert_eq!(
        CredentialError::Io { reason: "denied".to_string() },
        CredentialError::Io { reason: "denied".to_string() }
    );
}

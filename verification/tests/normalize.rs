//! Behaviour of the path normalizer.
use rsmooth::util::NormalizeError;
use rsmooth::util::join_path;
use rsmooth::util::normalize_path;
use rsmooth::util::parent_of;
use rsmooth::util::resolve_path;

#[test]
fn absolute_input_is_kept() {
    let r = normalize_path("/home/max/documents/document.md", None).unwrap();
    assert_eq!(r, "/home/max/documents/document.md");
}

#[test]
fn absolute_input_is_kept_with_base() {
    let r = normalize_path("/etc/motd", Some("/var")).unwrap();
    assert_eq!(r, "/etc/motd");
}

#[test]
fn relative_input_is_joined_onto_base() {
    let r = normalize_path("documents/document.md", Some("/home/max")).unwrap();
    assert_eq!(r, "/home/max/documents/document.md");
    let with_slash = normalize_path("documents/document.md", Some("/home/max/")).unwrap();
    assert_eq!(with_slash, "/home/max/documents/document.md");
}

#[test]
fn relative_input_without_base_fails() {
    let r = normalize_path("documents/document.md", None);
    assert!(matches!(r, Err(NormalizeError::WdNotFound)));
}

#[test]
fn tilde_becomes_home_directory() {
    let home = shellexpand::tilde("~").to_string();
    if home == "~" {
        // No home directory is known in this environment.
        return;
    }
    let r = normalize_path("~/documents/document.md", None).unwrap();
    assert_eq!(r, format!("{}/documents/document.md", home));
}

#[test]
fn environment_variable_is_expanded() {
    let home = match shellexpand::env("$HOME") {
        Ok(x) => x.to_string(),
        Err(_) => return,
    };
    if !home.starts_with('/') {
        return;
    }
    let r = normalize_path("$HOME/documents/document.md", None).unwrap();
    assert_eq!(r, format!("{}/documents/document.md", home));
}

#[test]
fn undefined_variable_is_a_lookup_error() {
    let r = normalize_path("$RSMOOTH_SURELY_UNDEFINED_VARIABLE/doc.md", None);
    match r {
        Err(NormalizeError::LookupError(p)) => {
            assert_eq!(p, "$RSMOOTH_SURELY_UNDEFINED_VARIABLE/doc.md");
        }
        other => panic!("expected a lookup error, got {:?}", other),
    }
}

#[test]
fn resolve_joins_relative_onto_base() {
    assert_eq!(resolve_path("a/b.md", Some("/base")).unwrap(), "/base/a/b.md");
    assert_eq!(resolve_path("/a/b.md", Some("/base")).unwrap(), "/a/b.md");
    assert!(matches!(resolve_path("a/b.md", None), Err(NormalizeError::WdNotFound)));
}

#[test]
fn join_inserts_a_single_separator() {
    assert_eq!(join_path("/a", "b"), "/a/b");
    assert_eq!(join_path("/a/", "b"), "/a/b");
    assert_eq!(join_path("", "b"), "b");
}

#[test]
fn parent_of_strips_the_last_component() {
    assert_eq!(parent_of("/home/max/doc.md").unwrap(), "/home/max");
    assert_eq!(parent_of("/doc.md").unwrap(), "/");
    assert_eq!(parent_of("doc.md").unwrap(), "");
    assert!(parent_of("/").is_none());
}

#[test]
fn parent_of_ignores_repeated_and_trailing_separators() {
    assert_eq!(parent_of("/a/b/").unwrap(), "/a");
    assert_eq!(parent_of("/a//b").unwrap(), "/a");
    assert_eq!(parent_of("a//b").unwrap(), "a");
    assert_eq!(parent_of("a/").unwrap(), "");
    assert_eq!(parent_of("//b").unwrap(), "/");
    assert!(parent_of("///").is_none());
    assert!(parent_of("").is_none());
}

#[test]
fn normalize_error_messages() {
    assert_eq!(
        NormalizeError::WdNotFound.message(),
        "working directory couldn't be determined"
    );
    assert_eq!(
        NormalizeError::LookupError("$X/a".to_string()).message(),
        "some environment variables not found in path $X/a"
    );
}

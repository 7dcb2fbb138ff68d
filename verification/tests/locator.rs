use runtime_supervisor::errors::ResolutionError;
use runtime_supervisor::locator::{dev_candidate_path, join_path, locate};

#[test]
fn join_inserts_separator() {
    assert_eq!(join_path("a", "b"), "a/b");
}

#[test]
fn join_keeps_existing_separator() {
    assert_eq!(join_path("a/", "b"), "a/b");
}

#[test]
fn join_empty_base() {
    assert_eq!(join_path("", "b"), "/b");
}

#[test]
fn dev_candidate_from_root() {
    assert_eq!(
        dev_candidate_path("/app/"),
        "/app/../../../src-python/.venv/Scripts/python.exe"
    );
}

#[test]
fn bundled_layout_selects_embedded_runtime() {
    // Install root /app/, development path absent, bundled path present.
    let loc = locate(Some("/app/"), false).unwrap();
    assert_eq!(loc.executable_path, "/app/python/python.exe");
    assert!(loc.is_embedded);
    assert_eq!(loc.aux_env.len(), 1);
    assert_eq!(loc.aux_env[0].0, "PYTHONPATH");
    assert_eq!(loc.aux_env[0].1, "/app/python/Lib/site-packages");
}

#[test]
fn development_path_takes_priority() {
    // Both candidates exist on disk: the development one is selected.
    let loc = locate(Some("/app/"), true).unwrap();
    assert_eq!(
        loc.executable_path,
        "/app/../../../src-python/.venv/Scripts/python.exe"
    );
    assert!(!loc.is_embedded);
    assert!(loc.aux_env.is_empty());
}

#[test]
fn development_layout_without_trailing_separator() {
    let loc = locate(Some("/opt/shell"), true).unwrap();
    assert_eq!(
        loc.executable_path,
        "/opt/shell/../../../src-python/.venv/Scripts/python.exe"
    );
    assert!(!loc.is_embedded);
    assert!(loc.aux_env.is_empty());
}

#[test]
fn embedded_aux_env_never_empty() {
    let loc = locate(Some("/opt/shell"), false).unwrap();
    assert!(loc.is_embedded);
    assert!(!loc.aux_env.is_empty());
    assert_eq!(loc.aux_env[0].1, "/opt/shell/python/Lib/site-packages");
}

#[test]
fn unreadable_install_root_fails_resolution() {
    assert!(matches!(
        locate(None, false),
        Err(ResolutionError::InstallRootUnavailable)
    ));
}

#[test]
fn unreadable_install_root_fails_even_with_dev_runtime() {
    assert!(matches!(
        locate(None, true),
        Err(ResolutionError::InstallRootUnavailable)
    ));
}

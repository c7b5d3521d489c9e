use cargo_mutants_core::cargo::{cargo_bin, child_rustflags, LintCapMode};
use cargo_mutants_core::options::Options;

#[test]
fn binary_defaults_to_cargo() {
    assert_eq!(cargo_bin(None), "cargo");
    assert_eq!(
        cargo_bin(Some("/opt/toolchain/bin/cargo".to_owned())),
        "/opt/toolchain/bin/cargo"
    );
}

#[test]
fn lint_cap_alone_without_existing_flags() {
    assert_eq!(child_rustflags(None, LintCapMode::Append), "--cap-lints=allow");
    assert_eq!(child_rustflags(None, LintCapMode::Replace), "--cap-lints=allow");
    assert_eq!(
        child_rustflags(Some(String::new()), LintCapMode::Append),
        "--cap-lints=allow"
    );
}

#[test]
fn lint_cap_appends_or_replaces_existing_flags() {
    assert_eq!(LintCapMode::default(), LintCapMode::Append);
    assert_eq!(
        child_rustflags(Some("-Cdebuginfo=0".to_owned()), LintCapMode::Append),
        "-Cdebuginfo=0 --cap-lints=allow"
    );
    assert_eq!(
        child_rustflags(Some("-Cdebuginfo=0".to_owned()), LintCapMode::Replace),
        "--cap-lints=allow"
    );
}

#[test]
fn test_timeout_is_unbounded_by_default() {
    let mut options = Options::default();
    assert!(!options.has_test_timeout());
    assert_eq!(options.test_timeout(), None);
    options.set_test_timeout(Some(20_000_000_000));
    assert!(options.has_test_timeout());
    assert_eq!(options.test_timeout(), Some(20_000_000_000));
    options.set_test_timeout(None);
    assert!(!options.has_test_timeout());
}

use cargo_mutants_core::cargo::{cargo_args, command_argv, command_line, CargoResult};
use cargo_mutants_core::options::Options;
use cargo_mutants_core::phase::Phase;

#[test]
fn generate_cargo_args_for_default_options() {
    let options = Options::default();
    assert_eq!(cargo_args(Phase::Check, &options), vec!["check", "--tests"]);
    assert_eq!(cargo_args(Phase::Build, &options), vec!["build", "--tests"]);
    assert_eq!(cargo_args(Phase::Test, &options), vec!["test"]);
}

#[test]
fn generate_cargo_args_with_additional_cargo_test_args() {
    let mut options = Options::default();
    options
        .additional_cargo_test_args
        .extend(["--lib", "--no-fail-fast"].iter().map(|s| s.to_string()));
    assert_eq!(cargo_args(Phase::Check, &options), vec!["check", "--tests"]);
    assert_eq!(cargo_args(Phase::Build, &options), vec!["build", "--tests"]);
    assert_eq!(
        cargo_args(Phase::Test, &options),
        vec!["test", "--lib", "--no-fail-fast"]
    );
}

#[test]
fn generate_cargo_args_with_additional_cargo_args_and_test_args() {
    let mut options = Options::default();
    options
        .additional_cargo_test_args
        .extend(["--lib", "--no-fail-fast"].iter().map(|s| s.to_string()));
    options
        .additional_cargo_args
        .extend(["--release".to_owned()]);
    assert_eq!(
        cargo_args(Phase::Check, &options),
        vec!["check", "--tests", "--release"]
    );
    assert_eq!(
        cargo_args(Phase::Build, &options),
        vec!["build", "--tests", "--release"]
    );
    assert_eq!(
        cargo_args(Phase::Test, &options),
        vec!["test", "--release", "--lib", "--no-fail-fast"]
    );
}

#[test]
fn blanket_args_keep_their_order_in_every_phase() {
    let mut options = Options::default();
    options.additional_cargo_args = vec!["-p".to_owned(), "a".to_owned(), "-p".to_owned()];
    assert_eq!(
        cargo_args(Phase::Build, &options),
        vec!["build", "--tests", "-p", "a", "-p"]
    );
    assert_eq!(cargo_args(Phase::Test, &options), vec!["test", "-p", "a", "-p"]);
}

#[test]
fn phase_names_are_subcommands() {
    assert_eq!(Phase::Check.name(), "check");
    assert_eq!(Phase::Build.name(), "build");
    assert_eq!(Phase::Test.name(), "test");
}

#[test]
fn only_success_is_success() {
    assert!(CargoResult::Success.success());
    assert!(!CargoResult::Failure.success());
    assert!(!CargoResult::Timeout.success());
}

#[test]
fn argv_and_logged_command_line() {
    let args = vec!["test".to_owned(), "--lib".to_owned()];
    let argv = command_argv("cargo".to_owned(), &args);
    assert_eq!(argv, vec!["cargo", "test", "--lib"]);
    assert_eq!(command_line(&argv), "cargo test --lib");
    assert_eq!(command_line(&vec!["cargo".to_owned()]), "cargo");
    assert_eq!(command_line(&Vec::new()), "");
}

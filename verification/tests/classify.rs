use rcargo::classify::{is_non_build_arg, is_registry_arg, is_required_target_dir, starts_with_hyphen};

fn args(words: &[&str]) -> Vec<String> {
    words.iter().map(|w| w.to_string()).collect()
}

#[test]
fn no_arguments_need_no_target_dir() {
    assert!(!is_required_target_dir(&[]));
}

#[test]
fn version_flag_needs_no_target_dir() {
    assert!(!is_required_target_dir(&args(&["--version"])));
    assert!(!is_required_target_dir(&args(&["-V"])));
}

#[test]
fn build_needs_target_dir() {
    assert!(is_required_target_dir(&args(&["build"])));
    assert!(is_required_target_dir(&args(&["build", "--release"])));
    assert!(is_required_target_dir(&args(&["test", "--", "--nocapture"])));
    assert!(is_required_target_dir(&args(&["+nightly", "check"])));
}

#[test]
fn publish_after_a_flag_needs_no_target_dir() {
    assert!(!is_required_target_dir(&args(&["--release", "publish"])));
}

#[test]
fn every_non_build_token_is_recognised_alone() {
    for word in [
        "--help", "-h", "--version", "-V", "--list", "help", "version", "search", "login",
        "logout", "owner", "yank", "publish", "cache",
    ] {
        assert!(is_non_build_arg(word), "{}", word);
        assert!(!is_required_target_dir(&args(&[word])), "{}", word);
    }
}

#[test]
fn non_build_token_counts_in_any_position() {
    assert!(!is_required_target_dir(&args(&["build", "--help"])));
    assert!(!is_required_target_dir(&args(&["run", "--", "version"])));
    assert!(!is_required_target_dir(&args(&["--color", "always", "build", "-h"])));
}

#[test]
fn value_of_a_flag_that_names_a_command_counts_as_the_command() {
    assert!(!is_required_target_dir(&args(&["build", "--package", "publish"])));
    assert!(!is_required_target_dir(&args(&["run", "--bin", "search"])));
}

#[test]
fn tokens_match_whole_words_only() {
    assert!(is_required_target_dir(&args(&["--helpful"])));
    assert!(is_required_target_dir(&args(&["publisher"])));
    assert!(is_required_target_dir(&args(&["-v"])));
    assert!(is_required_target_dir(&args(&["HELP"])));
    assert!(is_required_target_dir(&args(&[""])));
    assert!(!is_non_build_arg(""));
    assert!(!is_non_build_arg("--Help"));
}

#[test]
fn only_flags_need_a_target_dir() {
    assert!(is_required_target_dir(&args(&["--release"])));
    assert!(is_required_target_dir(&args(&["-q", "--offline"])));
}

#[test]
fn registry_commands_are_the_narrower_set() {
    for word in ["search", "login", "logout", "owner", "yank", "publish"] {
        assert!(is_registry_arg(word), "{}", word);
    }
    for word in ["cache", "help", "version", "--help", "build", ""] {
        assert!(!is_registry_arg(word), "{}", word);
    }
}

#[test]
fn a_flag_starts_with_a_hyphen() {
    assert!(starts_with_hyphen("-"));
    assert!(starts_with_hyphen("--release"));
    assert!(!starts_with_hyphen(""));
    assert!(!starts_with_hyphen("build"));
    assert!(!starts_with_hyphen("é-"));
}

use rcargo::cli::{
    child_exited, get_target_dir, print_version, redirect_notice, run_rcargo, CargoVersion,
    ChildOutcome, Cli, Commands, Invocation, Output,
};

fn cli(command: Option<Commands>, show_version: bool, args: &[&str]) -> Cli {
    Cli { command, show_version, cargo_args: args.iter().map(|a| a.to_string()).collect() }
}

#[test]
fn target_root_defaults() {
    assert_eq!(get_target_dir(None), "/tmp/rcargo_targets");
    assert_eq!(get_target_dir(Some("")), "/tmp/rcargo_targets");
    assert_eq!(get_target_dir(Some("/mnt/ramdisk")), "/mnt/ramdisk");
    assert_eq!(get_target_dir(Some("relative dir")), "relative dir");
}

#[test]
fn version_flag_goes_first() {
    assert_eq!(run_rcargo(&cli(None, true, &[])), Invocation::ShowVersion);
    assert_eq!(run_rcargo(&cli(None, true, &["build"])), Invocation::ShowVersion);
    assert_eq!(
        run_rcargo(&cli(Some(Commands::Purge { all: true, yes: true }), true, &[])),
        Invocation::ShowVersion
    );
}

#[test]
fn commands_go_before_arguments() {
    assert_eq!(
        run_rcargo(&cli(Some(Commands::Size { all: false }), false, &["build"])),
        Invocation::Size { all: false }
    );
    assert_eq!(
        run_rcargo(&cli(Some(Commands::Size { all: true }), false, &[])),
        Invocation::Size { all: true }
    );
    assert_eq!(
        run_rcargo(&cli(Some(Commands::Purge { all: false, yes: true }), false, &[])),
        Invocation::Purge { all: false, yes: true }
    );
    assert_eq!(
        run_rcargo(&cli(Some(Commands::Purge { all: true, yes: false }), false, &[])),
        Invocation::Purge { all: true, yes: false }
    );
}

#[test]
fn builds_are_redirected() {
    assert_eq!(run_rcargo(&cli(None, false, &["build"])), Invocation::Redirect);
    assert_eq!(run_rcargo(&cli(None, false, &["--release", "run"])), Invocation::Redirect);
}

#[test]
fn the_rest_passes_through() {
    assert_eq!(run_rcargo(&cli(None, false, &[])), Invocation::PassThrough);
    assert_eq!(run_rcargo(&cli(None, false, &["--help"])), Invocation::PassThrough);
    assert_eq!(run_rcargo(&cli(None, false, &["--release", "publish"])), Invocation::PassThrough);
    assert_eq!(run_rcargo(&cli(None, false, &["search", "serde"])), Invocation::PassThrough);
}

#[test]
fn exit_code_of_the_wrapped_tool_is_passed_on() {
    for redirected in [false, true] {
        assert_eq!(child_exited(redirected, false, Some(101)), ChildOutcome::Exit(101));
        assert_eq!(child_exited(redirected, false, Some(0)), ChildOutcome::Exit(0));
        assert_eq!(child_exited(redirected, false, Some(-1)), ChildOutcome::Exit(-1));
        assert_eq!(child_exited(redirected, false, None), ChildOutcome::Exit(1));
    }
}

#[test]
fn success_ends_the_run_or_leads_to_the_symlink() {
    assert_eq!(child_exited(false, true, Some(0)), ChildOutcome::Finished);
    assert_eq!(child_exited(true, true, Some(0)), ChildOutcome::LinkTarget);
    assert_eq!(child_exited(true, true, None), ChildOutcome::LinkTarget);
}

#[test]
fn redirect_is_announced() {
    assert_eq!(
        redirect_notice("/tmp/rcargo_targets/demo-1234567"),
        "RCargo: Target directory redirected to: /tmp/rcargo_targets/demo-1234567"
    );
}

#[test]
fn version_output() {
    let reported = CargoVersion::Reported { output: "cargo 1.75.0 (1d8b05cdd 2023-11-20)\n".to_string() };
    assert_eq!(
        print_version("0.1.0", reported),
        (
            Output::Line("rcargo 0.1.0".to_string()),
            Output::Verbatim("cargo 1.75.0 (1d8b05cdd 2023-11-20)\n".to_string())
        )
    );
    assert_eq!(
        print_version("0.1.0", CargoVersion::Failed),
        (
            Output::Line("rcargo 0.1.0".to_string()),
            Output::Warning("Failed to get cargo version".to_string())
        )
    );
    assert_eq!(
        print_version("2.0.0-rc.1", CargoVersion::NotRun { error: "No such file or directory (os error 2)".to_string() }),
        (
            Output::Line("rcargo 2.0.0-rc.1".to_string()),
            Output::Warning(
                "Failed to execute cargo --version: No such file or directory (os error 2)".to_string()
            )
        )
    );
}

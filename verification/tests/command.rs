use colmena::command::{Command, NixCommand, NixExe};
use colmena::flags::NixFlags;

fn test_flags() -> NixFlags {
    let mut flags = NixFlags::default();
    flags.set_show_trace(true);
    flags.set_impure(true);
    flags.add_option("cores".to_string(), "4".to_string());
    flags.add_option(
        "substituters".to_string(),
        "https://a https://b".to_string(),
    );
    flags
}

#[test]
fn test_nix_receives_all_flags() {
    let argv = NixCommand::nix(test_flags()).arg("eval").into_argv();

    assert_eq!(
        argv,
        vec![
            "nix",
            "eval",
            "--show-trace",
            "--impure",
            "--option",
            "cores",
            "4",
            "--option",
            "substituters",
            "https://a https://b",
            "--extra-experimental-features",
            "nix-command flakes",
        ]
    );
}

#[test]
fn test_features_survive_user_experimental_features() {
    let mut flags = NixFlags::default();
    flags.add_option(
        "experimental-features".to_string(),
        "ca-derivations".to_string(),
    );

    let argv = NixCommand::nix(flags).into_argv();

    assert_eq!(
        argv,
        vec![
            "nix",
            "--option",
            "experimental-features",
            "ca-derivations",
            "--extra-experimental-features",
            "nix-command flakes",
        ]
    );
}

#[test]
fn test_legacy_binaries_drop_impure() {
    let commands = [
        NixCommand::nix_store(test_flags()),
        NixCommand::nix_env(test_flags()),
        NixCommand::nix_copy_closure(test_flags()),
    ];

    for command in commands {
        let argv = command.into_argv();

        assert!(!argv.contains(&"--impure".to_string()));
        assert!(argv.contains(&"--show-trace".to_string()));
        assert!(argv.windows(3).any(|w| w == ["--option", "cores", "4"]));
    }
}

#[test]
fn test_builders_option() {
    let mut flags = NixFlags::default();
    flags.add_option("builders".to_string(), "@/path/to/machines".to_string());

    let argv = NixCommand::nix_store(flags).into_argv();

    assert_eq!(
        argv,
        vec!["nix-store", "--option", "builders", "@/path/to/machines"]
    );
}

#[test]
fn test_bin_dir_prefixes_executable() {
    let argv = NixCommand::nix_env(NixFlags::default())
        .bin_dir("/run/current-system/sw/bin")
        .arg("--version")
        .into_argv();

    assert_eq!(
        argv,
        vec!["/run/current-system/sw/bin/nix-env", "--version"]
    );
}

#[test]
fn test_pure_eval() {
    let mut flags = NixFlags::default();
    flags.set_pure_eval(true);

    let argv = NixCommand::nix_store(flags).into_argv();
    assert_eq!(argv, vec!["nix-store", "--pure-eval"]);
}

#[test]
fn evaluators_receive_impure() {
    for command in [
        NixCommand::nix_instantiate(test_flags()),
        NixCommand::nix_eval_jobs("/pinned/nix-eval-jobs".to_string(), test_flags()),
    ] {
        let argv = command.into_argv();
        assert!(argv.contains(&"--impure".to_string()));
        assert!(!argv.contains(&"--extra-experimental-features".to_string()));
    }
}

#[test]
fn bin_dir_leaves_pinned_eval_jobs_alone() {
    let argv = NixCommand::nix_eval_jobs("/pinned/nix-eval-jobs".to_string(), NixFlags::default())
        .bin_dir("/run/current-system/sw/bin")
        .into_argv();
    assert_eq!(argv, vec!["/pinned/nix-eval-jobs"]);

    let exe = NixExe::NixInstantiate;
    assert_eq!(exe.executable(&None), "nix-instantiate");
    assert_eq!(exe.executable(&Some("/bin/".to_string())), "/bin/nix-instantiate");
}

#[test]
fn extra_features_follow_the_default_ones() {
    let argv = NixCommand::nix(NixFlags::default())
        .extra_features(&["recursive-nix"])
        .extra_features(&["ca-derivations"])
        .args(&["flake", "show"])
        .into_argv();
    assert_eq!(
        argv,
        vec![
            "nix",
            "flake",
            "show",
            "--extra-experimental-features",
            "nix-command flakes recursive-nix ca-derivations",
        ]
    );

    let argv = NixCommand::nix_instantiate(NixFlags::default())
        .extra_features(&["flakes"])
        .into_argv();
    assert_eq!(
        argv,
        vec!["nix-instantiate", "--extra-experimental-features", "flakes"]
    );
}

#[test]
fn built_command_has_the_argv() {
    let command: Command = NixCommand::nix(test_flags()).arg("eval").build();
    let argv = NixCommand::nix(test_flags()).arg("eval").into_argv();

    assert_eq!(command.program, argv[0]);
    assert_eq!(command.args, argv[1..]);
    assert!(command.env.is_empty());
}

#[test]
fn caps_of_the_executables() {
    assert!(NixExe::Nix.caps().impure);
    assert_eq!(NixExe::Nix.caps().features, vec!["nix-command", "flakes"]);
    assert!(NixExe::NixEvalJobs("x".to_string()).caps().impure);
    assert!(!NixExe::NixStore.caps().impure);
    assert!(NixExe::NixEnv.caps().features.is_empty());
}

#[test]
fn flags_are_copied_whole() {
    let flags = test_flags();
    let copy = flags.clone();
    assert!(copy.show_trace());
    assert!(copy.impure());
    assert!(!copy.pure_eval());
    assert_eq!(copy.options(), flags.options());
    assert_eq!(copy.options().len(), 2);
}

#[test]
fn commands_are_copied_whole() {
    let command = NixCommand::nix_eval_jobs("/pinned/nix-eval-jobs".to_string(), test_flags())
        .extra_features(&["flakes"])
        .arg("--expr");
    let copy = command.clone().arg("x");
    assert_eq!(command.clone().into_argv(), command.clone().into_argv());
    let mut expected = command.into_argv();
    expected.insert(2, "x".to_string());
    assert_eq!(copy.into_argv(), expected);

    let dir = NixCommand::nix(NixFlags::default()).bin_dir("/bin");
    assert_eq!(dir.clone().build().program, "/bin/nix");
    let exe = NixExe::NixEvalJobs("/jobs".to_string());
    assert_eq!(exe.clone().executable(&None), "/jobs");
    assert_eq!(NixExe::NixCopyClosure.clone().executable(&None), "nix-copy-closure");
}

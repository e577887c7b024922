use std::convert::TryInto;

use colmena::command::NixCommand;
use colmena::error::ColmenaError;
use colmena::flags::NixFlags;
use colmena::key_uploader::Key;
use colmena::profile::Profile;
use colmena::ssh::{Activation, CopyDirection, CopyOptions, Ssh};
use colmena::store::StorePath;
use colmena::system::{Goal, SystemType};

fn example(user: Option<&str>) -> Ssh {
    Ssh::new(
        user.map(|user| user.to_string()),
        "example.com".to_string(),
        NixFlags::default(),
    )
}

fn store_path(path: &str) -> StorePath {
    path.to_string().try_into().unwrap()
}

fn profile() -> Profile {
    Profile::from_store_path_unchecked(store_path("/nix/store/a-x"))
}

#[test]
fn test_ssh_argv_escapes_for_remote_shell() {
    let mut flags = NixFlags::default();
    flags.add_option(
        "substituters".to_string(),
        "https://a https://b".to_string(),
    );

    let host = Ssh::new(Some("root".to_string()), "example.com".to_string(), flags);

    let argv = NixCommand::nix_store(host.nix_flags().clone())
        .args(&["--no-gc-warning", "--realise"])
        .arg("/nix/store/aaaaaaaaaaaaaaaaaaaaaaaaaaaaaaaa-x")
        .into_argv();
    let command = host.ssh_argv(argv);

    let args: Vec<String> = command.args;

    assert!(args.contains(&"'https://a https://b'".to_string()));
    assert!(args.contains(&"--realise".to_string()));
    assert!(args.contains(&"nix-store".to_string()));
}

#[test]
fn test_copy_closure_threads_nix_flags() {
    let mut flags = NixFlags::default();
    flags.add_option("cores".to_string(), "4".to_string());

    let mut host = Ssh::new(Some("root".to_string()), "example.com".to_string(), flags);

    let store_path: StorePath = "/nix/store/aaaaaaaaaaaaaaaaaaaaaaaaaaaaaaaa-x"
        .to_string()
        .try_into()
        .unwrap();

    for use_nix3_copy in [false, true] {
        host.set_use_nix3_copy(use_nix3_copy);

        let command =
            host.nix_copy_closure(&store_path, CopyDirection::ToRemote, CopyOptions::default());

        let args: Vec<String> = command.args;

        assert!(
            args.windows(3).any(|w| w == ["--option", "cores", "4"]),
            "nix_flags not threaded (use_nix3_copy: {}): {:?}",
            use_nix3_copy,
            args
        );
    }
}

#[test]
fn ssh_command_with_every_option() {
    let mut host = example(Some("luser"));
    host.set_port(2222);
    host.set_ssh_config("/etc/ssh_config".to_string());
    host.set_extra_ssh_options(vec!["-o".to_string(), "BatchMode=no".to_string()]);
    host.set_privilege_escalation_command(vec!["sudo".to_string(), "-n".to_string()]);

    let command = host.ssh(&["echo", "a b"]);
    let options = [
        "-o",
        "BatchMode=no",
        "-o",
        "StrictHostKeyChecking=accept-new",
        "-o",
        "BatchMode=yes",
        "-T",
        "-p",
        "2222",
        "-F",
        "/etc/ssh_config",
    ];
    let mut expected = vec!["luser@example.com"];
    expected.extend(options);
    expected.extend(["--", "sudo", "-n", "echo", "a b"]);
    assert_eq!(command.program, "ssh");
    assert_eq!(command.args, expected);
    assert_eq!(
        command.env,
        vec![("NIX_SSHOPTS".to_string(), options.join(" "))]
    );
    assert_eq!(host.ssh_options(), options);
}

#[test]
fn root_needs_no_escalation() {
    let mut root = example(Some("root"));
    root.set_privilege_escalation_command(vec!["sudo".to_string()]);
    assert!(!root.ssh(&["id"]).args.contains(&"sudo".to_string()));

    let mut unknown = example(None);
    unknown.set_privilege_escalation_command(vec!["sudo".to_string()]);
    let args = unknown.ssh(&["id"]).args;
    assert_eq!(args[0], "example.com");
    assert_eq!(args[args.len() - 3..], ["--", "sudo", "id"]);
    assert_eq!(unknown.ssh_target(), "example.com");
    assert_eq!(root.ssh_target(), "root@example.com");
}

#[test]
fn arguments_for_the_remote_shell() {
    let argv = ["plain/word-1", "", "it's", "wow!", "a\tb", "é"];
    let argv = argv.map(|arg| arg.to_string()).to_vec();
    let args = example(None).ssh_argv(argv).args;
    assert_eq!(
        args[args.len() - 6..],
        [
            "plain/word-1",
            "''",
            "'it'\\''s'",
            "'wow'\\!''",
            "'a\tb'",
            "'é'"
        ]
    );
}

#[test]
fn copy_with_nix_copy_closure() {
    let host = example(Some("root"));
    let command = host.nix_copy_closure(
        &store_path("/nix/store/a-x"),
        CopyDirection::FromRemote,
        CopyOptions::default(),
    );
    assert_eq!(command.program, "nix-copy-closure");
    assert_eq!(
        command.args,
        vec![
            "--from",
            "--include-outputs",
            "--use-substitutes",
            "--gzip",
            "root@example.com",
            "/nix/store/a-x",
        ]
    );
    assert_eq!(command.env[0].0, "NIX_SSHOPTS");
    assert_eq!(
        command.env[0].1,
        "-o StrictHostKeyChecking=accept-new -o BatchMode=yes -T"
    );

    let none = CopyOptions {
        include_outputs: false,
        use_substitutes: false,
        gzip: false,
    };
    let command =
        host.nix_copy_closure(&store_path("/nix/store/a-x"), CopyDirection::ToRemote, none);
    assert_eq!(
        command.args,
        vec!["--to", "root@example.com", "/nix/store/a-x"]
    );
}

#[test]
fn copy_with_nix_copy() {
    let mut host = example(Some("root"));
    host.set_use_nix3_copy(true);
    let command = host.nix_copy_closure(
        &store_path("/nix/store/a-x.drv"),
        CopyDirection::ToRemote,
        CopyOptions::default(),
    );
    assert_eq!(command.program, "nix");
    assert_eq!(
        command.args,
        vec![
            "copy",
            "--no-check-sigs",
            "--substitute-on-destination",
            "--builders-use-substitutes",
            "--derivation",
            "--to",
            "ssh-ng://root@example.com?compress=true",
            "/nix/store/a-x.drv",
            "--extra-experimental-features",
            "nix-command flakes",
        ]
    );

    let none = CopyOptions {
        include_outputs: true,
        use_substitutes: false,
        gzip: false,
    };
    let command =
        host.nix_copy_closure(&store_path("/nix/store/a-x"), CopyDirection::FromRemote, none);
    assert_eq!(
        command.args[..5],
        [
            "copy",
            "--no-check-sigs",
            "--from",
            "ssh-ng://root@example.com",
            "/nix/store/a-x"
        ]
    );
}

#[test]
fn darwin_copies_with_nix_copy() {
    let mut host = example(Some("admin"));
    host.set_system_type(SystemType::Darwin);
    let command = host.nix_copy_closure(
        &store_path("/nix/store/a-x"),
        CopyDirection::ToRemote,
        CopyOptions::default(),
    );
    assert_eq!(command.program, "nix");
    assert!(command.args.contains(
        &"ssh-ng://admin@example.com?remote-program=/run/current-system/sw/bin/nix-daemon&compress=true"
            .to_string()
    ));
}

#[test]
fn remote_nix_runs_from_the_bin_dir() {
    let mut host = example(Some("root"));
    let args = host.realize_remote(&store_path("/nix/store/a-x.drv")).args;
    assert_eq!(
        args[args.len() - 5..],
        [
            "--",
            "nix-store",
            "--no-gc-warning",
            "--realise",
            "/nix/store/a-x.drv"
        ]
    );

    host.set_system_type(SystemType::Darwin);
    let args = host.realize_remote(&store_path("/nix/store/a-x.drv")).args;
    assert_eq!(
        args[args.len() - 4],
        "/run/current-system/sw/bin/nix-store"
    );
}

#[test]
fn refused_goals_run_nothing() {
    let mut host = example(None);
    assert!(matches!(
        host.activate(&profile(), Goal::UploadKeys),
        Err(ColmenaError::Unsupported)
    ));

    host.set_system_type(SystemType::Darwin);
    let error = host.activate(&profile(), Goal::Boot).unwrap_err();
    assert_eq!(
        error.display(),
        "The boot goal is not supported on darwin nodes"
    );
}

#[test]
fn switch_detaches_on_nixos() {
    let host = example(Some("root"));
    let plan = host.activate(&profile(), Goal::Switch).unwrap();
    let set_profile = plan.set_profile.unwrap().args;
    assert_eq!(
        set_profile[set_profile.len() - 5..],
        [
            "nix-env",
            "--profile",
            "/nix/var/nix/profiles/system",
            "--set",
            "/nix/store/a-x"
        ]
    );
    match plan.activation {
        Activation::Detached(argv) => assert_eq!(
            argv,
            vec!["/nix/store/a-x/bin/switch-to-configuration", "switch"]
        ),
        Activation::Direct(command) => panic!("{command:?}"),
    }

    let plan = host.activate(&profile(), Goal::Test).unwrap();
    assert!(plan.set_profile.is_none());
    assert!(matches!(plan.activation, Activation::Detached(_)));
}

#[test]
fn other_activations_run_in_the_session() {
    let mut host = example(Some("root"));
    let plan = host.activate(&profile(), Goal::Boot).unwrap();
    assert!(plan.set_profile.is_some());
    match plan.activation {
        Activation::Direct(command) => assert_eq!(
            command.args[command.args.len() - 2..],
            ["/nix/store/a-x/bin/switch-to-configuration", "boot"]
        ),
        Activation::Detached(argv) => panic!("{argv:?}"),
    }
    let plan = host.activate(&profile(), Goal::DryActivate).unwrap();
    assert!(plan.set_profile.is_none());
    assert!(matches!(plan.activation, Activation::Direct(_)));

    host.set_detached_activation(false);
    let plan = host.activate(&profile(), Goal::Switch).unwrap();
    assert!(matches!(plan.activation, Activation::Direct(_)));

    host.set_detached_activation(true);
    host.set_system_type(SystemType::Darwin);
    let plan = host.activate(&profile(), Goal::Switch).unwrap();
    match plan.activation {
        Activation::Direct(command) => {
            assert_eq!(command.args.last().unwrap(), "/nix/store/a-x/activate")
        }
        Activation::Detached(argv) => panic!("{argv:?}"),
    }
}

#[test]
fn commands_on_the_host() {
    let mut host = example(Some("root"));
    let tail = |args: Vec<String>| {
        let start = args.iter().position(|arg| arg == "--").unwrap();
        args[start + 1..].join(" ")
    };

    assert_eq!(
        tail(host.get_current_system_profile().args),
        "readlink -f /run/current-system"
    );
    assert_eq!(
        tail(host.get_main_system_profile().args),
        "sh -c 'p=/nix/var/nix/profiles/system; [ -e \"$p\" ] || p=/run/current-system; readlink -f \"$p\"'"
    );
    assert_eq!(tail(host.stop_unit("u").args), "systemctl stop u");
    assert_eq!(tail(host.initate_reboot().args), "reboot");
    assert_eq!(
        tail(host.get_boot_id().args),
        "cat /proc/sys/kernel/random/boot_id"
    );
    host.set_system_type(SystemType::Darwin);
    assert_eq!(
        tail(host.get_boot_id().args),
        "sysctl -n kern.bootsessionuuid"
    );
    assert_eq!(host.system_type(), SystemType::Darwin);
    assert_eq!(host.host(), "example.com");
}

#[test]
fn keys_are_uploaded_through_sh() {
    let key = Key {
        name: "secret".to_string(),
        path: "/run/keys/secret".to_string(),
        user: "root".to_string(),
        group: "root".to_string(),
        permissions: "0600".to_string(),
    };
    let args = example(Some("root")).upload_key(&key, false).args;
    assert_eq!(args[args.len() - 3..args.len() - 1], ["sh", "-c"]);
    let script = args.last().unwrap();
    assert!(script.starts_with("'set -eu\n"));
    assert!(script.contains("destination=\"/run/keys/secret\""));
    assert!(!script.contains("'\\"));
}

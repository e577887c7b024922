use std::convert::TryFrom;

use colmena::error::ColmenaError;
use colmena::flags::NixFlags;
use colmena::profile::Profile;
use colmena::store::{parse_paths, BuildResult, StorePath};
use colmena::system::{Goal, SystemType};

fn store_path(path: &str) -> StorePath {
    StorePath::try_from(path.to_string()).unwrap()
}

fn profile() -> Profile {
    Profile::from_store_path_unchecked(store_path("/nix/store/aaaaaaaaaaaaaaaaaaaaaaaaaaaaaaaa-x"))
}

#[test]
fn test_darwin_activates_only_switch() {
    for goal in [
        Goal::Build,
        Goal::Push,
        Goal::Boot,
        Goal::Test,
        Goal::DryActivate,
        Goal::UploadKeys,
    ] {
        assert!(profile()
            .activation_command(goal, SystemType::Darwin)
            .is_err());
    }

    assert!(profile()
        .activation_command(Goal::Switch, SystemType::Darwin)
        .is_ok());
}

#[test]
fn activation_commands() {
    let nixos = |goal| {
        profile()
            .activation_command(goal, SystemType::NixOS)
            .unwrap()
    };
    let script =
        "/nix/store/aaaaaaaaaaaaaaaaaaaaaaaaaaaaaaaa-x/bin/switch-to-configuration".to_string();
    for (goal, action) in [
        (Goal::Switch, "switch"),
        (Goal::Boot, "boot"),
        (Goal::Test, "test"),
        (Goal::DryActivate, "dry-activate"),
    ] {
        assert_eq!(nixos(goal), vec![script.clone(), action.to_string()]);
    }
    for goal in [Goal::Build, Goal::Push, Goal::UploadKeys] {
        assert!(matches!(
            profile().activation_command(goal, SystemType::NixOS),
            Err(ColmenaError::UnsupportedGoal { goal: refused, system_type: SystemType::NixOS })
                if refused == goal
        ));
    }
    assert_eq!(
        profile()
            .activation_command(Goal::Switch, SystemType::Darwin)
            .unwrap(),
        vec!["/nix/store/aaaaaaaaaaaaaaaaaaaaaaaaaaaaaaaa-x/activate"]
    );
}

#[test]
fn profile_commands() {
    let mut flags = NixFlags::default();
    flags.set_impure(true);
    flags.add_option("cores".to_string(), "4".to_string());
    assert_eq!(
        profile().switch_profile_command(&flags).into_argv(),
        vec![
            "nix-env",
            "--profile",
            "/nix/var/nix/profiles/system",
            "--set",
            "/nix/store/aaaaaaaaaaaaaaaaaaaaaaaaaaaaaaaa-x",
            "--option",
            "cores",
            "4",
        ]
    );

    let command = profile().create_gc_root("/gcroots/x", &flags);
    assert_eq!(command.program, "nix-store");
    assert_eq!(
        command.args,
        vec![
            "--no-build-output",
            "--indirect",
            "--add-root",
            "/gcroots/x",
            "--realise",
            "/nix/store/aaaaaaaaaaaaaaaaaaaaaaaaaaaaaaaa-x",
            "--option",
            "cores",
            "4",
        ]
    );
}

#[test]
fn profile_of_a_build_result() {
    let one = store_path("/nix/store/a-x");
    let two = store_path("/nix/store/b-y");

    let profile = Profile::try_from(BuildResult::new(vec![one.clone()])).unwrap();
    assert_eq!(profile.as_path(), "/nix/store/a-x");
    assert_eq!(*profile.as_store_path(), one);

    let none = Profile::try_from(BuildResult::new(Vec::new())).unwrap_err();
    assert_eq!(
        none.display(),
        "Nix returned invalid response: There is no store path"
    );
    let many = Profile::try_from(BuildResult::new(vec![one, two])).unwrap_err();
    assert_eq!(
        many.display(),
        "Nix returned invalid response: Build resulted in more than 1 store path"
    );
}

#[test]
fn profile_is_on_the_first_line() {
    let profile = Profile::parse("/nix/store/a-x\n/nix/store/b-y\n").unwrap();
    assert_eq!(profile.as_path(), "/nix/store/a-x");
    assert!(matches!(
        Profile::parse(""),
        Err(ColmenaError::FailedToGetCurrentProfile)
    ));
    assert!(matches!(
        Profile::parse("/run/current-system\n"),
        Err(ColmenaError::InvalidStorePath)
    ));
}

#[test]
fn store_paths_of_a_build() {
    let paths = parse_paths("/nix/store/a-x\r\n/nix/store/b-y").unwrap();
    let paths: Vec<&str> = paths.iter().map(|p| p.as_path()).collect();
    assert_eq!(paths, ["/nix/store/a-x", "/nix/store/b-y"]);
    assert!(parse_paths("").unwrap().is_empty());
    assert!(matches!(
        parse_paths("/nix/store/a-x\n\n"),
        Err(ColmenaError::InvalidStorePath)
    ));
}

#[test]
fn store_paths_are_checked_and_compared() {
    assert!(matches!(
        StorePath::try_from("/tmp/x".to_string()),
        Err(ColmenaError::InvalidStorePath)
    ));
    assert_eq!(store_path("/nix/store/a-x"), store_path("/nix/store//a-x/"));
    assert!(store_path("/nix/store/a-x") != store_path("/nix/store/a-y"));

    assert!(store_path("/nix/store/a-x.drv").is_derivation());
    assert!(!store_path("/nix/store/a-x").is_derivation());
    assert!(!store_path("/nix/store/.drv").is_derivation());
    assert!(!store_path("/nix/store/a.drv/x").is_derivation());
}

#[test]
fn entries_and_absolute_paths() {
    assert_eq!(
        profile().entry("sw/bin"),
        "/nix/store/aaaaaaaaaaaaaaaaaaaaaaaaaaaaaaaa-x/sw/bin"
    );
    assert_eq!(profile().entry("/etc"), "/etc");
}

#[test]
fn realise_command() {
    let argv = store_path("/nix/store/a-x.drv")
        .realise_command(&NixFlags::default())
        .into_argv();
    assert_eq!(
        argv,
        vec!["nix-store", "--no-gc-warning", "--realise", "/nix/store/a-x.drv"]
    );
}

#[test]
fn goals_and_systems() {
    assert!(Goal::Switch.should_switch_profile());
    assert!(Goal::Boot.should_switch_profile());
    assert!(!Goal::Test.should_switch_profile());
    assert!(!Goal::UploadKeys.requires_activation());
    assert!(SystemType::NixOS.supports(Goal::Boot));
    assert_eq!(SystemType::default(), SystemType::NixOS);
    assert_eq!(SystemType::NixOS.nix_bin_dir(), None);
    assert_eq!(
        SystemType::Darwin.nix_bin_dir(),
        Some("/run/current-system/sw/bin")
    );
}

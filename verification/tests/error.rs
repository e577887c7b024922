use std::convert::TryFrom;

use colmena::error::{ColmenaError, ExitStatus, UnitExit};
use colmena::number::{parse_i32, render_i32};
use colmena::profile::Profile;
use colmena::store::StorePath;
use colmena::system::{Goal, SystemType};
use colmena::text;

#[test]
fn error_messages() {
    let store_path = StorePath::try_from("/nix/store/a-\"x\"".to_string()).unwrap();
    let profile = Profile::from_store_path_unchecked(store_path.clone());
    let host = || "host".to_string();
    let unit = || "unit".to_string();
    let cases = [
        (
            ColmenaError::BadOutput {
                output: "?".to_string(),
            },
            "Nix returned invalid response: ?",
        ),
        (
            ColmenaError::from(ExitStatus::Code(-1)),
            "Child process exited with error code: -1",
        ),
        (
            ColmenaError::from(ExitStatus::Signal(9)),
            "Child process was killed by signal 9",
        ),
        (
            ColmenaError::Unsupported,
            "This operation is not supported",
        ),
        (
            ColmenaError::UnsupportedGoal {
                goal: Goal::DryActivate,
                system_type: SystemType::Darwin,
            },
            "The dry-activate goal is not supported on darwin nodes",
        ),
        (ColmenaError::InvalidStorePath, "Invalid Nix store path"),
        (
            ColmenaError::from(validator::ValidationErrors::new()),
            "Validation error",
        ),
        (
            ColmenaError::AttributeEvaluationError,
            "Some attributes failed to evaluate",
        ),
        (
            ColmenaError::KeyError {
                name: "k".to_string(),
                error: "no".to_string(),
            },
            "Error processing key \"k\": no",
        ),
        (
            ColmenaError::NotADerivation { store_path },
            "Store path StorePath(\"/nix/store/a-\\\"x\\\"\") is not a derivation",
        ),
        (
            ColmenaError::ActiveProfileUnknown { profile },
            "Unknown active profile: Profile(StorePath(\"/nix/store/a-\\\"x\\\"\"))",
        ),
        (
            ColmenaError::FailedToGetCurrentProfile,
            "Could not determine current profile",
        ),
        (
            ColmenaError::ActivationUnitNotFound {
                hostname: host(),
                unit: unit(),
            },
            "Activation unit unit on host host does not exist, the SSH session may have dropped before systemd-run ran",
        ),
        (
            ColmenaError::ActivationFailed {
                hostname: host(),
                unit: unit(),
                result: "resources".to_string(),
                exit: None,
            },
            "Activation unit unit on host host failed with result resources",
        ),
        (
            ColmenaError::ActivationWatchEnded,
            "The activation watch ended before the unit finished",
        ),
        (
            ColmenaError::NoTargetHost,
            "Don't know how to connect to the node",
        ),
        (ColmenaError::EmptyNodeName, "Node name cannot be empty"),
        (ColmenaError::EmptyFilterRule, "Filter rule cannot be empty"),
        (
            ColmenaError::unknown("odd".to_string()),
            "Unknown error: odd",
        ),
        (
            ColmenaError::ExecError { n_hosts: 12 },
            "Exec failed on 12 hosts",
        ),
    ];
    for (error, message) in cases {
        assert_eq!(error.display(), message);
    }
}

#[test]
fn io_errors_keep_their_message() {
    let error = std::io::Error::new(std::io::ErrorKind::Other, "disk on fire");
    assert_eq!(
        ColmenaError::from(error).display(),
        "I/O Error: disk on fire"
    );

    let error = std::io::Error::new(std::io::ErrorKind::Other, "disk on fire");
    let start = ColmenaError::ActivationStartFailed {
        hostname: "host".to_string(),
        unit: "unit".to_string(),
        source: Box::new(ColmenaError::from(error)),
    };
    let message = |cause: &str| {
        format!(
            "Could not start activation unit unit on host host (I/O Error: {cause}), \
             set deployment.detachedActivation = false to activate in the SSH session"
        )
    };
    assert_eq!(start.display(), message("disk on fire"));
    assert_eq!(start.display_with("no space"), message("no space"));
    assert_eq!(
        ColmenaError::NoTargetHost.display_with("no space"),
        "Don't know how to connect to the node"
    );
}

#[test]
fn child_errors_carry_a_backtrace() {
    for status in [ExitStatus::Code(1), ExitStatus::Signal(9)] {
        match ColmenaError::from(status) {
            ColmenaError::ChildFailure { backtrace, .. }
            | ColmenaError::ChildKilled { backtrace, .. } => {
                assert_eq!(
                    backtrace.status(),
                    std::backtrace::BacktraceStatus::Captured
                );
            }
            error => panic!("{error:?}"),
        }
    }
}

#[test]
fn exit_results() {
    assert!(ExitStatus::Code(0).success());
    assert!(ExitStatus::Code(0).result().is_ok());
    assert!(matches!(
        ExitStatus::Code(3).result(),
        Err(ColmenaError::ChildFailure { exit_code: 3, .. })
    ));
    assert!(matches!(
        ExitStatus::Signal(15).result(),
        Err(ColmenaError::ChildKilled { signal: 15, .. })
    ));
    assert_eq!(UnitExit::Status(4).display(), "exit status 4");
    assert_eq!(UnitExit::Signal(15).display(), "killed by signal 15");
}

#[test]
fn numbers_read_back() {
    for n in [0, 7, 10, -10, 255, i32::MAX, i32::MIN] {
        assert_eq!(render_i32(n), format!("{n}"));
        assert_eq!(parse_i32(&render_i32(n)), Some(n));
    }
    for bad in ["", "-", "+", " 1", "1x", "2147483648", "-2147483649"] {
        assert_eq!(parse_i32(bad), None, "{bad}");
    }
    assert_eq!(parse_i32("+007"), Some(7));
}

#[test]
fn text_primitives() {
    let strings = |list: &[&str]| -> Vec<String> { list.iter().map(|s| s.to_string()).collect() };
    for s in ["", "a", "a\n", "a\r\nb", "\n\n", "a\r", "x\ny\r\n"] {
        let lines: Vec<String> = s.lines().map(|line| line.to_string()).collect();
        assert_eq!(text::lines(s), lines, "{s:?}");
    }
    for s in ["", " a  b\tc ", "a\u{a0}b\u{2003}c", "\u{85}x"] {
        let words: Vec<String> = s.split_whitespace().map(|word| word.to_string()).collect();
        assert_eq!(text::words(s), words, "{s:?}");
    }
    for (s, pattern, with) in [("aaa", "aa", "b"), ("%A%A%", "%A%", "x"), ("abc", "d", "")] {
        assert_eq!(text::replace(s, pattern, with), s.replace(pattern, with));
    }
    assert_eq!(text::join(&strings(&["a", "b", "c"]), ", "), "a, b, c");
    assert_eq!(text::join(&strings(&[]), ", "), "");
    assert_eq!(
        text::split_once("k=v=w", '='),
        Some(("k".to_string(), "v=w".to_string()))
    );
    assert_eq!(text::split_once("k", '='), None);
    assert_eq!(text::trim_final_newlines("a\n\n"), "a");
}

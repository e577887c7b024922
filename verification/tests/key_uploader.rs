use colmena::error::{ColmenaError, ExitStatus};
use colmena::key_uploader::{
    generate_script, key_error, upload_message, uploaded, Key, SCRIPT_TEMPLATE,
};

fn key(user: &str) -> Key {
    Key {
        name: "secret".to_string(),
        path: "/run/keys/secret".to_string(),
        user: user.to_string(),
        group: "wheel".to_string(),
        permissions: "0600".to_string(),
    }
}

#[test]
fn test_template_has_no_quote_or_bang() {
    // ssh_argv escapes both in a way a nushell login shell misreads
    assert!(!SCRIPT_TEMPLATE.contains(['\'', '!']));
}

#[test]
fn script_fills_every_placeholder() {
    let key = key("root");
    let script = generate_script(&key, key.path(), true);
    assert!(!script.contains('%'));
    assert!(script.contains("\ndestination=\"/run/keys/secret\"\n"));
    assert!(script.contains("\nuser=root\n"));
    assert!(script.contains("\ngroup=wheel\n"));
    assert!(script.contains("\npermissions=0600\n"));
    assert!(script.contains("\nrequire_ownership=1\n"));
    assert!(!script.ends_with('\n'));
    assert!(!script.contains(['\'', '!']));
    assert_eq!(key.name(), "secret");
}

#[test]
fn script_escapes_the_owner_but_not_the_destination() {
    let script = generate_script(&key("it's me"), "/tmp/a!b/secret", false);
    assert!(script.contains("\nuser='it'\\''s me'\n"));
    assert!(script.contains("\ndestination=\"/tmp/a!b/secret\"\n"));
    assert!(script.contains("\nrequire_ownership=\n"));
}

#[test]
fn upload_is_announced() {
    assert_eq!(upload_message("secret"), "Uploading key secret");
}

#[test]
fn first_failure_of_an_upload_counts() {
    let broken = || std::io::Error::from(std::io::ErrorKind::BrokenPipe);
    let ok = ExitStatus::Code(0);
    assert!(uploaded(Ok(()), Ok(()), Ok(ok)).is_ok());
    assert!(matches!(
        uploaded(Ok(()), Ok(()), Ok(ExitStatus::Code(2))),
        Err(ColmenaError::ChildFailure { exit_code: 2, .. })
    ));
    assert!(matches!(
        uploaded(Ok(()), Ok(()), Err(broken())),
        Err(ColmenaError::IoError { .. })
    ));
    assert!(matches!(
        uploaded(Ok(()), Err(ColmenaError::Unsupported), Err(broken())),
        Err(ColmenaError::Unsupported)
    ));
    assert!(matches!(
        uploaded(
            Err(ColmenaError::NoTargetHost),
            Err(ColmenaError::Unsupported),
            Ok(ok)
        ),
        Err(ColmenaError::NoTargetHost)
    ));
    assert_eq!(
        key_error(&key("root"), "no file".to_string()).display(),
        "Error processing key \"secret\": no file"
    );
}

#[test]
fn script_changes_nothing_but_the_placeholders() {
    let script = generate_script(&key("a b"), "/run/keys/secret", true);
    let expected = SCRIPT_TEMPLATE
        .replace("%DESTINATION%", "/run/keys/secret")
        .replace("%USER%", "'a b'")
        .replace("%GROUP%", "wheel")
        .replace("%PERMISSIONS%", "0600")
        .replace("%REQUIRE_OWNERSHIP%", "1");
    assert_eq!(format!("{script}\n"), expected);

    // a value that spells a later placeholder is filled in in turn
    let script = generate_script(&key("root"), "/%USER%", false);
    assert!(script.contains("destination=\"/root\""));
}

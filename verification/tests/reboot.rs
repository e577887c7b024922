use std::convert::TryFrom;

use colmena::error::{ColmenaError, ColmenaResult, ExitStatus};
use colmena::profile::Profile;
use colmena::reboot::{initiated, Action, Event, Progress, Reboot, RebootOptions};
use colmena::store::StorePath;
use colmena::system::SystemType;

fn profile(name: &str) -> Profile {
    Profile::from_store_path_unchecked(
        StorePath::try_from(format!("/nix/store/{name}")).unwrap(),
    )
}

fn waiting(new_profile: Option<Profile>) -> RebootOptions {
    RebootOptions {
        wait_for_boot: true,
        new_profile,
    }
}

fn down() -> ColmenaError {
    ColmenaError::from(ExitStatus::Code(255))
}

fn id(id: &str) -> Event {
    Event::BootId(Ok(id.to_string()))
}

/// Checks what the reboot waits for, and takes in what came of it.
fn step(reboot: Reboot, action: Action, event: Event) -> Reboot {
    assert_eq!(reboot.action(), action);
    match reboot.step(event) {
        Progress::Going { reboot, message } => {
            assert_eq!(message, None);
            reboot
        }
        done => panic!("{done:?}"),
    }
}

fn finish(reboot: Reboot, action: Action, event: Event) -> ColmenaResult<()> {
    assert_eq!(reboot.action(), action);
    match reboot.step(event) {
        Progress::Done(result) => result,
        going => panic!("{going:?}"),
    }
}

fn initiate(reboot: Reboot) -> Reboot {
    assert_eq!(reboot.action(), Action::Initiate);
    match reboot.step(Event::Initiated(Err(down()))) {
        Progress::Going { reboot, message } => {
            assert_eq!(message.unwrap(), "Waiting for reboot");
            reboot
        }
        done => panic!("{done:?}"),
    }
}

#[test]
fn reboot_without_waiting_only_initiates() {
    let reboot = Reboot::new(RebootOptions::default(), SystemType::NixOS);
    assert!(finish(reboot, Action::Initiate, Event::Initiated(Ok(()))).is_ok());

    let reboot = Reboot::new(RebootOptions::default(), SystemType::NixOS);
    let refused = ColmenaError::from(ExitStatus::Code(1));
    assert!(finish(reboot, Action::Initiate, Event::Initiated(Err(refused))).is_err());
}

#[test]
fn closed_connection_counts_as_initiated() {
    assert!(initiated(Err(down())).is_ok());
    assert!(initiated(Ok(())).is_ok());
    assert!(matches!(
        initiated(Err(ColmenaError::from(ExitStatus::Code(254)))),
        Err(ColmenaError::ChildFailure { exit_code: 254, .. })
    ));
}

#[test]
fn reboot_waits_for_another_boot() {
    let reboot = Reboot::new(waiting(None), SystemType::NixOS);
    let reboot = step(reboot, Action::GetBootId, id("a"));
    let reboot = initiate(reboot);
    let reboot = step(reboot, Action::GetBootId, id("a"));
    let reboot = step(reboot, Action::Wait, Event::Waited);
    let reboot = step(reboot, Action::GetBootId, Event::BootId(Err(down())));
    let reboot = step(reboot, Action::Wait, Event::Waited);
    assert!(finish(reboot, Action::GetBootId, id("b")).is_ok());
}

#[test]
fn darwin_also_waits_for_the_profile_link() {
    let reboot = Reboot::new(waiting(None), SystemType::Darwin);
    let reboot = step(reboot, Action::GetBootId, id("a"));
    let reboot = initiate(reboot);
    let reboot = step(reboot, Action::GetBootId, id("b"));
    let reboot = step(reboot, Action::GetProfile, Event::Profile(Err(down())));
    let reboot = step(reboot, Action::Wait, Event::Waited);
    let reboot = step(reboot, Action::GetBootId, id("b"));
    assert!(finish(reboot, Action::GetProfile, Event::Profile(Ok(profile("x")))).is_ok());
}

#[test]
fn profile_is_checked_after_the_boot() {
    let checked = |found: Event| {
        let reboot = Reboot::new(waiting(Some(profile("wanted"))), SystemType::NixOS);
        let reboot = step(reboot, Action::GetBootId, id("a"));
        let reboot = initiate(reboot);
        let reboot = step(reboot, Action::GetBootId, id("b"));
        finish(reboot, Action::GetProfile, found)
    };

    assert!(checked(Event::Profile(Ok(profile("wanted")))).is_ok());
    assert_eq!(
        checked(Event::Profile(Ok(profile("other"))))
            .unwrap_err()
            .display(),
        "Unexpected active profile: Profile(StorePath(\"/nix/store/other\"))"
    );
    assert!(checked(Event::Profile(Err(down()))).is_err());
}

#[test]
fn reboot_fails_without_a_boot_id() {
    let reboot = Reboot::new(waiting(None), SystemType::NixOS);
    assert!(finish(reboot, Action::GetBootId, Event::BootId(Err(down()))).is_err());
}

#[test]
fn unexpected_events_change_nothing() {
    let reboot = Reboot::new(waiting(None), SystemType::NixOS);
    let reboot = step(reboot, Action::GetBootId, Event::Waited);
    let reboot = step(reboot, Action::GetBootId, Event::Initiated(Ok(())));
    let reboot = step(reboot, Action::GetBootId, Event::Profile(Ok(profile("x"))));
    assert_eq!(reboot.action(), Action::GetBootId);
}

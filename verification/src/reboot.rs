//! Rebooting a host.
//!
//! [`Reboot`] decides what to do next, and the caller does it over SSH and
//! reports what came of it.

use vstd::prelude::*;

use crate::error;
use crate::error::{ColmenaError, ColmenaResult, ErrorModel};
use crate::list;
use crate::path;
use crate::profile::Profile;
use crate::system::SystemType;
use crate::text;

verus! {

/// How long to wait before looking again whether a host came back.
pub const BOOT_POLL_INTERVAL: u64 = 2_000_000_000;

/// How to reboot a host.
#[derive(Debug)]
pub struct RebootOptions {
    /// Whether to wait for the host to come back.
    pub wait_for_boot: bool,
    /// The profile the host must run afterwards.
    pub new_profile: Option<Profile>,
}

impl Default for RebootOptions {
    fn default() -> (r: Self)
        ensures
            !r.wait_for_boot,
            r.new_profile is None,
    {
        RebootOptions { wait_for_boot: false, new_profile: None }
    }
}

/// Something to do for a reboot.
#[derive(Debug, Clone, Copy, PartialEq, Eq, Structural)]
pub enum Action {
    /// Read the boot ID of the host.
    GetBootId,
    /// Tell the host to reboot.
    Initiate,
    /// Read the profile that runs on the host.
    GetProfile,
    /// Wait for [`BOOT_POLL_INTERVAL`].
    Wait,
}

/// What came of an action.
#[derive(Debug)]
pub enum Event {
    BootId(ColmenaResult<String>),
    Initiated(ColmenaResult<()>),
    Profile(ColmenaResult<Profile>),
    Waited,
}

/// What came of an action.
pub enum EventModel {
    BootId(Result<Seq<char>, ErrorModel>),
    Initiated(Result<(), ErrorModel>),
    Profile(Result<Seq<char>, ErrorModel>),
    Waited,
}

impl View for Event {
    type V = EventModel;

    open spec fn view(&self) -> EventModel {
        match self {
            Event::BootId(result) => EventModel::BootId(
                match result {
                    Ok(id) => Ok(id@),
                    Err(e) => Err(e@),
                },
            ),
            Event::Initiated(result) => EventModel::Initiated(error::outcome(*result)),
            Event::Profile(result) => EventModel::Profile(
                match result {
                    Ok(profile) => Ok(profile@),
                    Err(e) => Err(e@),
                },
            ),
            Event::Waited => EventModel::Waited,
        }
    }
}

/// Where a reboot stands.
#[derive(Debug)]
enum Phase {
    /// The boot ID before the reboot is awaited.
    OldId,
    /// The host was told to reboot. With no boot ID, nobody waits for it.
    Initiated(Option<String>),
    /// The boot ID is awaited, to compare it to the one before the reboot.
    NewId(String),
    /// The boot ID changed. The profile link is awaited.
    Link(String),
    /// The host was not back yet.
    Pause(String),
    /// The host is back. Its profile is awaited, to compare it to the wanted
    /// one.
    Check,
}

/// Where a reboot stands.
pub enum PhaseModel {
    OldId,
    Initiated(Option<Seq<char>>),
    NewId(Seq<char>),
    Link(Seq<char>),
    Pause(Seq<char>),
    Check,
}

impl View for Phase {
    type V = PhaseModel;

    closed spec fn view(&self) -> PhaseModel {
        match self {
            Phase::OldId => PhaseModel::OldId,
            Phase::Initiated(old) => PhaseModel::Initiated(list::opt_text(*old)),
            Phase::NewId(old) => PhaseModel::NewId(old@),
            Phase::Link(old) => PhaseModel::Link(old@),
            Phase::Pause(old) => PhaseModel::Pause(old@),
            Phase::Check => PhaseModel::Check,
        }
    }
}

/// A reboot.
#[derive(Debug)]
pub struct Reboot {
    system_type: SystemType,
    new_profile: Option<Profile>,
    phase: Phase,
}

/// What a reboot holds.
pub struct RebootModel {
    pub system_type: SystemType,
    pub new_profile: Option<Seq<char>>,
    pub phase: PhaseModel,
}

impl View for Reboot {
    type V = RebootModel;

    closed spec fn view(&self) -> RebootModel {
        RebootModel {
            system_type: self.system_type,
            new_profile: match self.new_profile {
                Some(profile) => Some(profile@),
                None => None,
            },
            phase: self.phase@,
        }
    }
}

/// How a reboot goes on.
#[derive(Debug)]
pub enum Progress {
    /// Show the message, and do what [`Reboot::action`] says.
    Going { reboot: Reboot, message: Option<String> },
    /// The reboot is over, with this result.
    Done(ColmenaResult<()>),
}

/// How a reboot goes on.
pub enum ProgressModel {
    Going { reboot: RebootModel, message: Option<Seq<char>> },
    Done(Result<(), ErrorModel>),
}

impl View for Progress {
    type V = ProgressModel;

    open spec fn view(&self) -> ProgressModel {
        match self {
            Progress::Going { reboot, message } => ProgressModel::Going {
                reboot: reboot@,
                message: list::opt_text(*message),
            },
            Progress::Done(result) => ProgressModel::Done(error::outcome(*result)),
        }
    }
}

/// The result of telling a host to reboot. An exit of ssh with 255 is taken
/// for "Connection closed by remote host".
pub open spec fn initiated_result(result: Result<(), ErrorModel>) -> Result<(), ErrorModel> {
    match result {
        Ok(()) => Ok(()),
        Err(e) => if e == (ErrorModel::ChildFailure { exit_code: 255 }) {
            Ok(())
        } else {
            Err(e)
        },
    }
}

/// Returns the result of telling a host to reboot, given how the command
/// ended.
pub fn initiated(result: ColmenaResult<()>) -> (r: ColmenaResult<()>)
    ensures
        error::outcome(r) == initiated_result(error::outcome(result)),
{
    match result {
        Ok(()) => Ok(()),
        Err(e) => {
            if let ColmenaError::ChildFailure { exit_code: 255, .. } = e {
                // Assume it's "Connection closed by remote host"
                Ok(())
            } else {
                Err(e)
            }
        },
    }
}

impl RebootModel {
    /// What the reboot waits for.
    pub open spec fn awaits(self) -> Action {
        match self.phase {
            PhaseModel::OldId => Action::GetBootId,
            PhaseModel::Initiated(_) => Action::Initiate,
            PhaseModel::NewId(_) => Action::GetBootId,
            PhaseModel::Link(_) => Action::GetProfile,
            PhaseModel::Pause(_) => Action::Wait,
            PhaseModel::Check => Action::GetProfile,
        }
    }

    /// The reboot in another phase.
    pub open spec fn at(self, phase: PhaseModel) -> ProgressModel {
        ProgressModel::Going { reboot: RebootModel { phase, ..self }, message: None }
    }

    /// What follows once the host is back.
    pub open spec fn back(self) -> ProgressModel {
        if self.new_profile is Some {
            self.at(PhaseModel::Check)
        } else {
            ProgressModel::Done(Ok(()))
        }
    }

    /// What follows an event. One that the reboot does not wait for changes
    /// nothing.
    pub open spec fn after(self, event: EventModel) -> ProgressModel {
        match (self.phase, event) {
            (PhaseModel::OldId, EventModel::BootId(Ok(old))) => self.at(
                PhaseModel::Initiated(Some(old)),
            ),
            (PhaseModel::OldId, EventModel::BootId(Err(e))) => ProgressModel::Done(Err(e)),
            (PhaseModel::Initiated(old), EventModel::Initiated(result)) => match (
                old,
                initiated_result(result),
            ) {
                (Some(old), Ok(())) => ProgressModel::Going {
                    reboot: RebootModel { phase: PhaseModel::NewId(old), ..self },
                    message: Some("Waiting for reboot"@),
                },
                (_, result) => ProgressModel::Done(result),
            },
            (PhaseModel::NewId(old), EventModel::BootId(Ok(new))) => if new == old {
                self.at(PhaseModel::Pause(old))
            } else if self.system_type == SystemType::NixOS {
                self.back()
            } else {
                self.at(PhaseModel::Link(old))
            },
            (PhaseModel::NewId(old), EventModel::BootId(Err(_))) => self.at(
                PhaseModel::Pause(old),
            ),
            (PhaseModel::Link(_), EventModel::Profile(Ok(_))) => self.back(),
            (PhaseModel::Link(old), EventModel::Profile(Err(_))) => self.at(
                PhaseModel::Pause(old),
            ),
            (PhaseModel::Pause(old), EventModel::Waited) => self.at(PhaseModel::NewId(old)),
            (PhaseModel::Check, EventModel::Profile(Ok(profile))) => ProgressModel::Done(
                if self.new_profile is Some && path::components(self.new_profile->0)
                    != path::components(profile) {
                    Err(ErrorModel::ActiveProfileUnexpected { profile })
                } else {
                    Ok(())
                },
            ),
            (PhaseModel::Check, EventModel::Profile(Err(e))) => ProgressModel::Done(Err(e)),
            _ => self.at(self.phase),
        }
    }
}

/// The reboot of a host.
pub open spec fn new_reboot(
    wait_for_boot: bool,
    new_profile: Option<Seq<char>>,
    system_type: SystemType,
) -> RebootModel {
    RebootModel {
        system_type,
        new_profile,
        phase: if wait_for_boot {
            PhaseModel::OldId
        } else {
            PhaseModel::Initiated(None)
        },
    }
}

impl Reboot {
    /// Creates the reboot of a host.
    pub fn new(options: RebootOptions, system_type: SystemType) -> (r: Self)
        ensures
            r@ == new_reboot(
                options.wait_for_boot,
                match options.new_profile {
                    Some(profile) => Some(profile@),
                    None => None,
                },
                system_type,
            ),
    {
        let phase: Phase = if options.wait_for_boot {
            Phase::OldId
        } else {
            Phase::Initiated(None)
        };
        Reboot { system_type, new_profile: options.new_profile, phase }
    }

    /// Returns what the reboot waits for.
    pub fn action(&self) -> (r: Action)
        ensures
            r == self@.awaits(),
    {
        match &self.phase {
            Phase::OldId => Action::GetBootId,
            Phase::Initiated(_) => Action::Initiate,
            Phase::NewId(_) => Action::GetBootId,
            Phase::Link(_) => Action::GetProfile,
            Phase::Pause(_) => Action::Wait,
            Phase::Check => Action::GetProfile,
        }
    }

    fn at(self, phase: Phase) -> (r: Progress)
        ensures
            r@ == self@.at(phase@),
    {
        Progress::Going {
            reboot: Reboot {
                system_type: self.system_type,
                new_profile: self.new_profile,
                phase,
            },
            message: None,
        }
    }

    fn back(self) -> (r: Progress)
        ensures
            r@ == self@.back(),
    {
        if self.new_profile.is_some() {
            self.at(Phase::Check)
        } else {
            Progress::Done(Ok(()))
        }
    }

    fn unmoved(self) -> (r: Progress)
        ensures
            r@ == self@.at(self@.phase),
    {
        Progress::Going { reboot: self, message: None }
    }

    /// Takes in what came of an action and returns how the reboot goes on.
    pub fn step(self, event: Event) -> (r: Progress)
        ensures
            r@ == self@.after(event@),
    {
        match event {
            Event::BootId(result) => self.take_boot_id(result),
            Event::Initiated(result) => self.take_initiated(result),
            Event::Profile(result) => self.take_profile(result),
            Event::Waited => match &self.phase {
                Phase::Pause(old_id) => {
                    let old_id: String = old_id.clone();
                    self.at(Phase::NewId(old_id))
                },
                _ => self.unmoved(),
            },
        }
    }

    fn take_boot_id(self, result: ColmenaResult<String>) -> (r: Progress)
        ensures
            r@ == self@.after(Event::BootId(result)@),
    {
        match &self.phase {
            Phase::OldId => match result {
                Ok(old_id) => self.at(Phase::Initiated(Some(old_id))),
                Err(e) => Progress::Done(Err(e)),
            },
            Phase::NewId(old_id) => {
                let old_id: String = old_id.clone();
                match result {
                    Ok(new_id) => {
                        if text::same_text(new_id.as_str(), old_id.as_str()) {
                            self.at(Phase::Pause(old_id))
                        } else if matches!(self.system_type, SystemType::NixOS) {
                            self.back()
                        } else {
                            // nix-darwin links /run/current-system from a launchd job
                            // that sshd does not wait for
                            self.at(Phase::Link(old_id))
                        }
                    },
                    // Ignore errors while waiting
                    Err(_) => self.at(Phase::Pause(old_id)),
                }
            },
            _ => self.unmoved(),
        }
    }

    fn take_initiated(self, result: ColmenaResult<()>) -> (r: Progress)
        ensures
            r@ == self@.after(Event::Initiated(result)@),
    {
        match &self.phase {
            Phase::Initiated(old_id) => {
                let old_id: Option<String> = match old_id {
                    Some(old_id) => Some(old_id.clone()),
                    None => None,
                };
                match (old_id, initiated(result)) {
                    (Some(old_id), Ok(())) => Progress::Going {
                        reboot: Reboot {
                            system_type: self.system_type,
                            new_profile: self.new_profile,
                            phase: Phase::NewId(old_id),
                        },
                        message: Some("Waiting for reboot".to_string()),
                    },
                    (_, result) => Progress::Done(result),
                }
            },
            _ => self.unmoved(),
        }
    }

    fn take_profile(self, result: ColmenaResult<Profile>) -> (r: Progress)
        ensures
            r@ == self@.after(Event::Profile(result)@),
    {
        match &self.phase {
            Phase::Link(old_id) => {
                let old_id: String = old_id.clone();
                match result {
                    Ok(_) => self.back(),
                    Err(_) => self.at(Phase::Pause(old_id)),
                }
            },
            // Ensure node has correct system profile
            Phase::Check => match result {
                Ok(profile) => {
                    let matching: bool = match &self.new_profile {
                        Some(new_profile) => *new_profile == profile,
                        None => true,
                    };
                    if matching {
                        Progress::Done(Ok(()))
                    } else {
                        Progress::Done(Err(ColmenaError::ActiveProfileUnexpected { profile }))
                    }
                },
                Err(e) => Progress::Done(Err(e)),
            },
            _ => self.unmoved(),
        }
    }
}

/// How a reboot stands after several events. Those after its end change
/// nothing.
pub open spec fn run(reboot: RebootModel, events: Seq<EventModel>) -> ProgressModel
    decreases events.len(),
{
    if events.len() == 0 {
        ProgressModel::Going { reboot, message: None }
    } else {
        match run(reboot, events.drop_last()) {
            ProgressModel::Going { reboot, .. } => reboot.after(events.last()),
            done => done,
        }
    }
}

/// The boot ID that an event reports.
pub open spec fn boot_id(event: EventModel) -> Option<Seq<char>> {
    match event {
        EventModel::BootId(Ok(id)) => Some(id),
        _ => None,
    }
}

/// Whether an event reports the ID.
pub open spec fn reports(events: Seq<EventModel>, i: int, id: Seq<char>) -> bool {
    0 <= i < events.len() && boot_id(events[i]) == Some(id)
}

/// Whether the boot ID changed from one event to a later one.
pub open spec fn boot_changed(events: Seq<EventModel>) -> bool {
    exists|i: int, j: int, old: Seq<char>, new: Seq<char>|
        i < j && #[trigger] reports(events, i, old) && #[trigger] reports(events, j, new) && old
            != new
}

/// Whether the boot ID was reported.
pub open spec fn reported(events: Seq<EventModel>, id: Seq<char>) -> bool {
    exists|i: int| reports(events, i, id)
}

/// What has happened by the time a reboot that waits stands where it does.
spec fn happened(progress: ProgressModel, events: Seq<EventModel>) -> bool {
    match progress {
        ProgressModel::Going { reboot, .. } => match reboot.phase {
            PhaseModel::OldId => true,
            PhaseModel::Initiated(Some(old)) => reported(events, old),
            PhaseModel::Initiated(None) => false,
            PhaseModel::NewId(old) => reported(events, old),
            PhaseModel::Pause(old) => reported(events, old),
            PhaseModel::Link(old) => reported(events, old) && boot_changed(events),
            PhaseModel::Check => boot_changed(events),
        },
        ProgressModel::Done(Ok(())) => boot_changed(events),
        ProgressModel::Done(Err(_)) => true,
    }
}

proof fn lemma_reports_kept(events: Seq<EventModel>)
    requires
        events.len() > 0,
    ensures
        forall|id: Seq<char>| #[trigger] reported(events.drop_last(), id) ==> reported(events, id),
        boot_changed(events.drop_last()) ==> boot_changed(events),
{
    let front = events.drop_last();
    assert forall|id: Seq<char>| #[trigger] reported(front, id) implies reported(events, id) by {
        let i = choose|i: int| reports(front, i, id);
        assert(reports(events, i, id));
    }
    if boot_changed(front) {
        let (i, j, old, new) = choose|i: int, j: int, old: Seq<char>, new: Seq<char>|
            i < j && #[trigger] reports(front, i, old) && #[trigger] reports(front, j, new) && old
                != new;
        assert(reports(events, i, old) && reports(events, j, new));
    }
}

proof fn lemma_happened(
    new_profile: Option<Seq<char>>,
    system_type: SystemType,
    events: Seq<EventModel>,
)
    ensures
        happened(run(new_reboot(true, new_profile, system_type), events), events),
        run(new_reboot(true, new_profile, system_type), events) matches ProgressModel::Going {
            reboot,
            ..
        } ==> reboot.new_profile == new_profile && reboot.system_type == system_type && (
        reboot.phase is Check ==> new_profile is Some),
    decreases events.len(),
{
    let start = new_reboot(true, new_profile, system_type);
    if events.len() > 0 {
        let front = events.drop_last();
        lemma_happened(new_profile, system_type, front);
        lemma_reports_kept(events);
        if let ProgressModel::Going { reboot, .. } = run(start, front) {
            let last = events.len() - 1;
            if let EventModel::BootId(Ok(id)) = events.last() {
                assert(reports(events, last, id));
                if let PhaseModel::NewId(old) = reboot.phase {
                    let i = choose|i: int| reports(front, i, old);
                    assert(reports(events, i, old));
                    if id != old {
                        assert(boot_changed(events));
                    }
                }
            }
        }
    }
}

/// A reboot that waits succeeds only once the boot ID has changed. Then a
/// darwin host has answered which profile it runs, and a host with a wanted
/// profile runs that one.
pub proof fn law_success_means_a_new_boot(
    new_profile: Option<Seq<char>>,
    system_type: SystemType,
    events: Seq<EventModel>,
)
    requires
        run(new_reboot(true, new_profile, system_type), events) == ProgressModel::Done(Ok(())),
        run(new_reboot(true, new_profile, system_type), events.drop_last()) is Going,
    ensures
        boot_changed(events),
        system_type == SystemType::Darwin || new_profile is Some ==> match events.last() {
            EventModel::Profile(Ok(profile)) => new_profile is Some ==> path::components(profile)
                == path::components(new_profile->0),
            _ => false,
        },
{
    lemma_happened(new_profile, system_type, events);
    lemma_happened(new_profile, system_type, events.drop_last());
    if events.len() == 0 {
        assert(events.drop_last() =~= events);
    }
}

/// The boot ID is known before the host is told to reboot, if the reboot waits
/// for another one.
pub proof fn law_boot_id_is_read_before_the_reboot(
    new_profile: Option<Seq<char>>,
    system_type: SystemType,
    events: Seq<EventModel>,
)
    requires
        run(new_reboot(true, new_profile, system_type), events) matches ProgressModel::Going {
            reboot,
            ..
        } && reboot.awaits() == Action::Initiate,
    ensures
        exists|i: int| 0 <= i < events.len() && boot_id(#[trigger] events[i]) is Some,
{
    lemma_happened(new_profile, system_type, events);
    let old = match run(new_reboot(true, new_profile, system_type), events) {
        ProgressModel::Going { reboot, .. } => reboot.phase->Initiated_0->0,
        ProgressModel::Done(_) => Seq::empty(),
    };
    let i = choose|i: int| reports(events, i, old);
    assert(boot_id(events[i]) is Some);
}

/// The host is told to reboot once: after an event that says how it went, the
/// reboot never waits for that again.
pub proof fn law_the_host_is_rebooted_once(
    reboot: RebootModel,
    events: Seq<EventModel>,
    i: int,
)
    requires
        0 <= i < events.len(),
        events[i] is Initiated,
        run(reboot, events.take(i)) matches ProgressModel::Going { reboot: then, .. }
            && then.awaits() == Action::Initiate,
    ensures
        run(reboot, events) matches ProgressModel::Going { reboot: now, .. } ==> {
            &&& now.awaits() != Action::Initiate
            &&& now.phase is NewId || now.phase is Link || now.phase is Pause || now.phase is Check
        },
    decreases events.len(),
{
    let front = events.drop_last();
    if i < front.len() {
        assert(front.take(i) =~= events.take(i));
        law_the_host_is_rebooted_once(reboot, front, i);
    } else {
        assert(events.take(i) =~= front);
    }
}

/// A reboot that does not wait is over once the host was told to reboot.
pub proof fn law_unwaited_reboot_only_initiates(
    new_profile: Option<Seq<char>>,
    system_type: SystemType,
    result: Result<(), ErrorModel>,
)
    ensures
        new_reboot(false, new_profile, system_type).awaits() == Action::Initiate,
        new_reboot(false, new_profile, system_type).after(EventModel::Initiated(result))
            == ProgressModel::Done(initiated_result(result)),
{
}

/// Once a host with a wanted profile is back, the profile it reports decides
/// on either type of system: the reboot succeeds exactly if it is the wanted
/// one, and names the one that runs exactly if it is not. A host that does not
/// answer fails the reboot with its error.
pub proof fn law_the_wanted_profile_decides(
    reboot: RebootModel,
    wanted: Seq<char>,
    profile: Seq<char>,
    error: ErrorModel,
)
    requires
        reboot.phase is Check,
        reboot.new_profile == Some(wanted),
    ensures
        ({
            let same = path::components(profile) == path::components(wanted);
            let found = reboot.after(EventModel::Profile(Ok(profile)));
            &&& found == ProgressModel::Done(Ok(())) <==> same
            &&& found == ProgressModel::Done(Err(ErrorModel::ActiveProfileUnexpected { profile }))
                <==> !same
            &&& reboot.after(EventModel::Profile(Err(error))) == ProgressModel::Done(Err(error))
        }),
{
}

/// How a reboot that waits begins: the boot ID is read, then the host is told
/// to reboot, then the user is told and the boot ID is read again. A failure
/// before that ends the reboot with its error, but for a closed connection.
pub proof fn law_a_reboot_begins_with_the_boot_id(
    new_profile: Option<Seq<char>>,
    system_type: SystemType,
    old: Seq<char>,
    error: ErrorModel,
)
    ensures
        ({
            let new = new_reboot(true, new_profile, system_type);
            let at = |phase: PhaseModel| RebootModel { phase, new_profile, system_type };
            let told = at(PhaseModel::Initiated(Some(old)));
            let waiting = ProgressModel::Going {
                reboot: at(PhaseModel::NewId(old)),
                message: Some("Waiting for reboot"@),
            };
            &&& new.awaits() == Action::GetBootId
            &&& new.after(EventModel::BootId(Err(error))) == ProgressModel::Done(Err(error))
            &&& new.after(EventModel::BootId(Ok(old))) == (ProgressModel::Going {
                reboot: told,
                message: None,
            })
            &&& told.awaits() == Action::Initiate
            &&& told.after(EventModel::Initiated(Ok(()))) == waiting
            &&& told.after(EventModel::Initiated(Err(error))) == if error == (
            ErrorModel::ChildFailure { exit_code: 255 }) {
                waiting
            } else {
                ProgressModel::Done(Err(error))
            }
            &&& at(PhaseModel::NewId(old)).awaits() == Action::GetBootId
        }),
        ({
            let new = new_reboot(false, new_profile, system_type);
            &&& new.awaits() == Action::Initiate
            &&& new.after(EventModel::Initiated(Ok(()))) == ProgressModel::Done(Ok(()))
            &&& new.after(EventModel::Initiated(Err(error))) == ProgressModel::Done(
                if error == (ErrorModel::ChildFailure { exit_code: 255 }) {
                    Ok(())
                } else {
                    Err(error)
                },
            )
        }),
{
}

/// While a host is not back, the reboot pauses and reads the boot ID again,
/// against the same ID from before: for an error, for that ID, and on darwin
/// for a profile that cannot be read.
pub proof fn law_a_host_that_is_not_back_is_polled(
    reboot: RebootModel,
    old: Seq<char>,
    error: ErrorModel,
)
    ensures
        ({
            let at = |phase: PhaseModel| RebootModel { phase, ..reboot };
            let going = |phase: PhaseModel| ProgressModel::Going {
                reboot: at(phase),
                message: None,
            };
            let pause = going(PhaseModel::Pause(old));
            &&& at(PhaseModel::NewId(old)).after(EventModel::BootId(Err(error))) == pause
            &&& at(PhaseModel::NewId(old)).after(EventModel::BootId(Ok(old))) == pause
            &&& at(PhaseModel::Link(old)).after(EventModel::Profile(Err(error))) == pause
            &&& at(PhaseModel::Pause(old)).awaits() == Action::Wait
            &&& at(PhaseModel::Pause(old)).after(EventModel::Waited) == going(
                PhaseModel::NewId(old),
            )
        }),
{
}

/// What a new boot leads to. A darwin host must also answer which profile it
/// runs. The host is then back: its profile is read if one is wanted, and the
/// reboot has succeeded if not.
pub proof fn law_a_new_boot_is_accepted(
    reboot: RebootModel,
    old: Seq<char>,
    new: Seq<char>,
    profile: Seq<char>,
)
    requires
        old != new,
    ensures
        ({
            let at = |phase: PhaseModel| RebootModel { phase, ..reboot };
            let back = if reboot.new_profile is Some {
                ProgressModel::Going { reboot: at(PhaseModel::Check), message: None }
            } else {
                ProgressModel::Done(Ok(()))
            };
            let seen = at(PhaseModel::NewId(old)).after(EventModel::BootId(Ok(new)));
            &&& reboot.system_type == SystemType::NixOS ==> seen == back
            &&& reboot.system_type == SystemType::Darwin ==> seen == (ProgressModel::Going {
                reboot: at(PhaseModel::Link(old)),
                message: None,
            })
            &&& at(PhaseModel::Link(old)).after(EventModel::Profile(Ok(profile))) == back
            &&& at(PhaseModel::Link(old)).awaits() == Action::GetProfile
            &&& at(PhaseModel::Check).awaits() == Action::GetProfile
        }),
{
}

/// An event that a reboot does not wait for changes nothing.
pub proof fn law_unexpected_events_leave_a_reboot_alone(reboot: RebootModel, event: EventModel)
    requires
        match reboot.awaits() {
            Action::GetBootId => !(event is BootId),
            Action::Initiate => !(event is Initiated),
            Action::GetProfile => !(event is Profile),
            Action::Wait => !(event is Waited),
        },
    ensures
        reboot.after(event) == (ProgressModel::Going { reboot, message: None }),
{
}

/// Whether a poll found the host down or not rebooted yet.
pub open spec fn not_back(result: Result<Seq<char>, ErrorModel>, old: Seq<char>) -> bool {
    match result {
        Ok(id) => id == old,
        Err(_) => true,
    }
}

/// The events of polls that found the host down or not rebooted yet.
pub open spec fn polls(results: Seq<Result<Seq<char>, ErrorModel>>) -> Seq<EventModel>
    decreases results.len(),
{
    if results.len() == 0 {
        Seq::empty()
    } else {
        polls(results.drop_last()).push(EventModel::BootId(results.last())).push(
            EventModel::Waited,
        )
    }
}

/// The events of a reboot, up to the one that reports the new boot ID.
pub open spec fn reboot_events(
    old: Seq<char>,
    results: Seq<Result<Seq<char>, ErrorModel>>,
    new: Seq<char>,
) -> Seq<EventModel> {
    (seq![EventModel::BootId(Ok(old)), EventModel::Initiated(Ok(()))] + polls(results)).push(
        EventModel::BootId(Ok(new)),
    )
}

proof fn lemma_polls(
    new_profile: Option<Seq<char>>,
    system_type: SystemType,
    old: Seq<char>,
    results: Seq<Result<Seq<char>, ErrorModel>>,
)
    requires
        forall|i: int| 0 <= i < results.len() ==> not_back(#[trigger] results[i], old),
    ensures
        ({
            let start = new_reboot(true, new_profile, system_type);
            let events = seq![EventModel::BootId(Ok(old)), EventModel::Initiated(Ok(()))] + polls(
                results,
            );
            run(start, events) matches ProgressModel::Going { reboot, .. } && reboot
                == (RebootModel { phase: PhaseModel::NewId(old), ..start })
        }),
    decreases results.len(),
{
    let start = new_reboot(true, new_profile, system_type);
    let first = seq![EventModel::BootId(Ok(old)), EventModel::Initiated(Ok(()))];
    if results.len() == 0 {
        let none = Seq::<EventModel>::empty();
        let one = none.push(EventModel::BootId(Ok(old)));
        assert(first + polls(results) =~= one.push(EventModel::Initiated(Ok(()))));
        lemma_run_push(start, none, EventModel::BootId(Ok(old)));
        lemma_run_push(start, one, EventModel::Initiated(Ok(())));
    } else {
        let front = results.drop_last();
        assert forall|i: int| 0 <= i < front.len() implies not_back(#[trigger] front[i], old) by {
            assert(front[i] == results[i]);
        }
        lemma_polls(new_profile, system_type, old, front);
        let before = first + polls(front);
        let asked = before.push(EventModel::BootId(results.last()));
        assert(first + polls(results) =~= asked.push(EventModel::Waited));
        assert(not_back(results[results.len() - 1], old));
        lemma_run_push(start, before, EventModel::BootId(results.last()));
        lemma_run_push(start, asked, EventModel::Waited);
    }
}

/// One more event is taken in where the others led.
proof fn lemma_run_push(start: RebootModel, events: Seq<EventModel>, event: EventModel)
    ensures
        run(start, events.push(event)) == match run(start, events) {
            ProgressModel::Going { reboot, .. } => reboot.after(event),
            done => done,
        },
{
    assert(events.push(event).drop_last() =~= events);
    assert(events.push(event).last() == event);
}

/// A host that comes back ends the reboot, after any number of polls that
/// found it down or not rebooted yet. On darwin it must also answer which
/// profile it runs. If a profile is wanted, the one that the host reports then
/// decides: the reboot succeeds exactly if it is the wanted one.
pub proof fn law_a_reboot_ends_when_the_host_is_back(
    wanted: Seq<char>,
    old: Seq<char>,
    results: Seq<Result<Seq<char>, ErrorModel>>,
    new: Seq<char>,
    link: Seq<char>,
    profile: Seq<char>,
)
    requires
        old != new,
        forall|i: int| 0 <= i < results.len() ==> not_back(#[trigger] results[i], old),
    ensures
        ({
            let events = reboot_events(old, results, new);
            let linked = events.push(EventModel::Profile(Ok(link)));
            let found = EventModel::Profile(Ok(profile));
            let nixos = |p: Option<Seq<char>>| new_reboot(true, p, SystemType::NixOS);
            let darwin = |p: Option<Seq<char>>| new_reboot(true, p, SystemType::Darwin);
            let result: Result<(), ErrorModel> = if path::components(profile) == path::components(
                wanted,
            ) {
                Ok(())
            } else {
                Err(ErrorModel::ActiveProfileUnexpected { profile })
            };
            &&& run(nixos(None), events) == ProgressModel::Done(Ok(()))
            &&& run(darwin(None), events) is Going
            &&& run(darwin(None), linked) == ProgressModel::Done(Ok(()))
            &&& run(nixos(Some(wanted)), events.push(found)) == ProgressModel::Done(result)
            &&& run(darwin(Some(wanted)), linked.push(found)) == ProgressModel::Done(result)
        }),
{
    let before = seq![EventModel::BootId(Ok(old)), EventModel::Initiated(Ok(()))] + polls(results);
    let events = reboot_events(old, results, new);
    let linked = events.push(EventModel::Profile(Ok(link)));
    let found = EventModel::Profile(Ok(profile));
    let answer = EventModel::BootId(Ok(new));
    let link_answer = EventModel::Profile(Ok(link));
    lemma_polls(None, SystemType::NixOS, old, results);
    lemma_run_push(new_reboot(true, None, SystemType::NixOS), before, answer);

    let darwin = new_reboot(true, None, SystemType::Darwin);
    lemma_polls(None, SystemType::Darwin, old, results);
    lemma_run_push(darwin, before, answer);
    lemma_run_push(darwin, events, link_answer);

    let nixos = new_reboot(true, Some(wanted), SystemType::NixOS);
    lemma_polls(Some(wanted), SystemType::NixOS, old, results);
    lemma_run_push(nixos, before, answer);
    lemma_run_push(nixos, events, found);

    let darwin = new_reboot(true, Some(wanted), SystemType::Darwin);
    lemma_polls(Some(wanted), SystemType::Darwin, old, results);
    lemma_run_push(darwin, before, answer);
    lemma_run_push(darwin, events, link_answer);
    lemma_run_push(darwin, linked, found);
}

/// A host is polled every 2 seconds.
pub proof fn law_hosts_are_polled_every_two_seconds()
    ensures
        BOOT_POLL_INTERVAL == 2 * error::SECOND,
{
}

} // verus!

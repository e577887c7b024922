//! Activation in a transient systemd unit.
//!
//! The activation completes even when it drops the SSH session it was
//! started over. The deployer follows the unit in one session after another,
//! see [`Watch`], and gives up once the host stays unreachable.

use vstd::prelude::*;

use crate::error;
use crate::error::{ColmenaError, ColmenaResult, ErrorModel, ExitStatus, SECOND};
use crate::list;
use crate::number;
use crate::record;
use crate::record::{RecordModel, StateModel};
use crate::shell;
use crate::text;
use crate::watch;
use crate::watch::{
    Next, NextModel, Output, OutputModel, Read, ReadModel, Watch, WatchModel,
    ACTIVATION_RECONNECT_TIMEOUT,
};

verus! {

/// How long to wait before reconnecting to the watch.
pub const ACTIVATION_RETRY_INTERVAL: u64 = 2_000_000_000;

// Unit names

/// Whether a character is a lower-case hexadecimal digit.
pub open spec fn is_hex(c: char) -> bool {
    '0' <= c <= '9' || 'a' <= c <= 'f'
}

/// Whether a text is a random UUID without hyphens: 32 hexadecimal digits,
/// with the version 4 and the variant of RFC 4122 in their places.
pub open spec fn is_random_uuid(s: Seq<char>) -> bool {
    &&& s.len() == 32
    &&& forall|i: int| 0 <= i < 32 ==> is_hex(#[trigger] s[i])
    &&& s[12] == '4'
    &&& s[16] == '8' || s[16] == '9' || s[16] == 'a' || s[16] == 'b'
}

/// Returns a new UUID with `uuid::Uuid::new_v4`, written by its `simple`
/// format.
///
/// Chance picks the UUID. Every one is 32 lower-case hexadecimal digits,
/// where the digit of the version is 4 and that of the variant 8, 9, a or b.
#[verifier::external_body]
fn new_uuid() -> (r: String)
    ensures
        is_random_uuid(r@),
{
    uuid::Uuid::new_v4().simple().to_string()
}

/// The name of the unit with an ID.
pub open spec fn unit_text(id: Seq<char>) -> Seq<char> {
    "colmena-activate-"@ + id
}

/// Returns the name of the unit with an ID.
pub fn unit_name(id: &str) -> (r: String)
    ensures
        r@ == unit_text(id@),
{
    "colmena-activate-".to_string().concat(id)
}

/// Returns the name of a new unit.
///
/// Chance picks the ID.
pub fn new_unit_name() -> (r: String)
    ensures
        exists|id: Seq<char>| is_random_uuid(id) && r@ == #[trigger] unit_text(id),
{
    let id: String = new_uuid();
    let r: String = unit_name(id.as_str());
    assert(is_random_uuid(id@) && r@ == unit_text(id@));
    r
}

/// A shell takes the name of a unit as one word as it stands, so a command
/// can name the unit without quotes.
pub proof fn law_unit_name_is_plain(id: Seq<char>)
    requires
        is_random_uuid(id),
    ensures
        shell::is_plain_word(unit_text(id)),
        shell::escaped(unit_text(id)) == unit_text(id),
{
    reveal_strlit("colmena-activate-");
    let name = unit_text(id);
    assert forall|i: int| 0 <= i < name.len() implies shell::is_plain(#[trigger] name[i]) by {
        if i >= 17 {
            assert(name[i] == id[i - 17]);
            assert(is_hex(id[i - 17]));
        }
    }
}

// The activation

impl ErrorModel {
    /// Whether a watch session may have failed for a lost connection or for
    /// access that recovers, rather than for the activation.
    pub open spec fn is_retryable(self) -> bool {
        ||| self is ChildFailure
        ||| self is ChildKilled
        ||| self is ActivationStepTimeout
        ||| self is ActivationWatchEnded
    }
}

/// Returns whether a watch session may have failed for a lost connection or
/// for access that recovers, rather than for the activation.
pub fn is_retryable(error: &ColmenaError) -> (r: bool)
    ensures
        r == error@.is_retryable(),
{
    matches!(
        error,
        ColmenaError::ChildFailure { .. }
        | ColmenaError::ChildKilled { .. }
        | ColmenaError::ActivationStepTimeout
        | ColmenaError::ActivationWatchEnded
    )
}

/// Something to do for a detached activation.
#[derive(Debug)]
pub enum Action {
    /// Run the remote command of a session, with the watch script on stdin.
    Connect(Vec<String>),
    /// Read the next line of the session, within so many nanoseconds.
    Read(u64),
    /// Wait for the session to exit.
    Exit,
    /// Wait for [`ACTIVATION_RETRY_INTERVAL`].
    Wait,
}

/// Something to do for a detached activation.
pub enum ActionModel {
    Connect(Seq<Seq<char>>),
    Read(int),
    Exit,
    Wait,
}

impl View for Action {
    type V = ActionModel;

    open spec fn view(&self) -> ActionModel {
        match self {
            Action::Connect(argv) => ActionModel::Connect(list::texts(argv@)),
            Action::Read(limit) => ActionModel::Read(*limit as int),
            Action::Exit => ActionModel::Exit,
            Action::Wait => ActionModel::Wait,
        }
    }
}

/// What came of an action.
#[derive(Debug)]
pub enum Event {
    Connected(Result<(), std::io::Error>),
    Read(Read),
    Exited(Result<ExitStatus, std::io::Error>),
    Waited,
}

/// What came of an action.
pub enum EventModel {
    Connected(Result<(), std::io::Error>),
    Read(ReadModel),
    Exited(Result<ExitStatus, std::io::Error>),
    Waited,
}

impl View for Event {
    type V = EventModel;

    open spec fn view(&self) -> EventModel {
        match self {
            Event::Connected(result) => EventModel::Connected(*result),
            Event::Read(read) => EventModel::Read(read@),
            Event::Exited(result) => EventModel::Exited(*result),
            Event::Waited => EventModel::Waited,
        }
    }
}

/// Where a detached activation stands.
#[derive(Debug)]
enum Phase {
    /// A session is about to run, which may start the unit.
    Connecting { starts: bool },
    /// The session runs.
    Following { starts: bool },
    /// The session printed its last line.
    Exiting { starts: bool },
    /// The session was lost to an error.
    Waiting { error: ColmenaError },
}

/// Where a detached activation stands.
pub enum PhaseModel {
    Connecting { starts: bool },
    Following { starts: bool },
    Exiting { starts: bool },
    Waiting { error: ErrorModel },
}

impl View for Phase {
    type V = PhaseModel;

    closed spec fn view(&self) -> PhaseModel {
        match self {
            Phase::Connecting { starts } => PhaseModel::Connecting { starts: *starts },
            Phase::Following { starts } => PhaseModel::Following { starts: *starts },
            Phase::Exiting { starts } => PhaseModel::Exiting { starts: *starts },
            Phase::Waiting { error } => PhaseModel::Waiting { error: error@ },
        }
    }
}

/// A detached activation.
#[derive(Debug)]
pub struct Detached {
    hostname: String,
    command: Vec<String>,
    watch: Watch,
    phase: Phase,
}

/// What a detached activation holds.
#[verifier::ext_equal]
pub struct DetachedModel {
    pub hostname: Seq<char>,
    /// The command the unit runs.
    pub command: Seq<Seq<char>>,
    pub watch: WatchModel,
    pub phase: PhaseModel,
}

impl View for Detached {
    type V = DetachedModel;

    closed spec fn view(&self) -> DetachedModel {
        DetachedModel {
            hostname: self.hostname@,
            command: list::texts(self.command@),
            watch: self.watch@,
            phase: self.phase@,
        }
    }
}

/// How a detached activation goes on.
#[derive(Debug)]
pub enum Progress {
    /// Do what [`Detached::action`] says.
    Going(Detached),
    /// The activation is over, with this outcome. A unit that succeeded is to
    /// be stopped.
    Done { outcome: ColmenaResult<()>, stop: bool },
}

/// How a detached activation goes on.
pub enum ProgressModel {
    Going(DetachedModel),
    Done { outcome: Result<(), ErrorModel>, stop: bool },
}

impl View for Progress {
    type V = ProgressModel;

    open spec fn view(&self) -> ProgressModel {
        match self {
            Progress::Going(activation) => ProgressModel::Going(activation@),
            Progress::Done { outcome, stop } => ProgressModel::Done {
                outcome: error::outcome(*outcome),
                stop: *stop,
            },
        }
    }
}

/// What an event leads to.
#[derive(Debug)]
pub struct Step {
    /// What to show first, in this order.
    pub outputs: Vec<Output>,
    pub progress: Progress,
}

/// What an event leads to.
pub struct StepModel {
    pub outputs: Seq<OutputModel>,
    pub progress: ProgressModel,
}

impl View for Step {
    type V = StepModel;

    open spec fn view(&self) -> StepModel {
        StepModel { outputs: watch::outputs(self.outputs@), progress: self.progress@ }
    }
}

/// What the user is told when contact is lost with `left` nanoseconds to
/// reconnect.
pub open spec fn lost_message(error: ErrorModel, left: int) -> Seq<char> {
    "Lost contact with the host ("@ + error.message() + "), reconnecting for up to "@
        + number::decimal(left / SECOND as int) + " seconds"@
}

impl DetachedModel {
    /// The activation of a unit that was not started yet.
    pub open spec fn new(
        hostname: Seq<char>,
        unit: Seq<char>,
        command: Seq<Seq<char>>,
        now: u64,
    ) -> Self {
        DetachedModel {
            hostname,
            command,
            watch: WatchModel::new(unit, now),
            phase: PhaseModel::Connecting { starts: true },
        }
    }

    /// What the activation waits for.
    pub open spec fn awaits(self, now: u64) -> ActionModel {
        match self.phase {
            PhaseModel::Connecting { starts } => ActionModel::Connect(
                self.watch.argv(
                    if starts {
                        Some(self.command)
                    } else {
                        None
                    },
                ),
            ),
            PhaseModel::Following { .. } => ActionModel::Read(self.watch.limit(now)),
            PhaseModel::Exiting { .. } => ActionModel::Exit,
            PhaseModel::Waiting { .. } => ActionModel::Wait,
        }
    }

    /// The activation with another watch and in another phase.
    pub open spec fn at(self, watch: WatchModel, phase: PhaseModel) -> ProgressModel {
        ProgressModel::Going(DetachedModel { watch, phase, ..self })
    }

    /// Whether a lost session is the first of an outage, with time left.
    pub open spec fn loses_contact(self, now: u64) -> bool {
        !self.watch.lost && self.watch.left(now) > 0
    }

    /// What follows a session with the given result: the outcome of the
    /// activation, or the error that ended the session earlier.
    pub open spec fn after_session(self, result: Result<(), ErrorModel>, now: u64) -> StepModel {
        match result {
            Ok(()) => StepModel {
                outputs: Seq::empty(),
                progress: ProgressModel::Done { outcome: Ok(()), stop: true },
            },
            Err(error) => if !error.is_retryable() {
                StepModel {
                    outputs: Seq::empty(),
                    progress: ProgressModel::Done { outcome: Err(error), stop: false },
                }
            } else if self.loses_contact(now) {
                StepModel {
                    outputs: seq![
                        OutputModel::Message(lost_message(error, self.watch.left(now))),
                    ],
                    progress: self.at(
                        WatchModel { lost: true, ..self.watch },
                        PhaseModel::Waiting { error },
                    ),
                }
            } else {
                StepModel {
                    outputs: Seq::empty(),
                    progress: self.at(self.watch, PhaseModel::Waiting { error }),
                }
            },
        }
    }

    /// What follows a wait after a session was lost for the given cause:
    /// another session, or the end once the host stayed unreachable for too
    /// long.
    pub open spec fn after_wait(self, cause: Seq<char>, now: u64) -> ProgressModel {
        if self.watch.silence(now) >= ACTIVATION_RECONNECT_TIMEOUT {
            ProgressModel::Done {
                outcome: Err(
                    ErrorModel::ActivationUnreachable {
                        hostname: self.hostname,
                        unit: self.watch.unit,
                        timeout: ACTIVATION_RECONNECT_TIMEOUT,
                        reason: match self.watch.unreadable {
                            Some(reason) => reason,
                            None => cause,
                        },
                    },
                ),
                stop: false,
            }
        } else {
            self.at(self.watch, PhaseModel::Connecting { starts: false })
        }
    }

    /// What follows when the next line of the session was waited for.
    pub open spec fn after_read(self, read: ReadModel, starts: bool, now: u64) -> StepModel {
        let step = self.watch.after_read(read, self.hostname, now);
        let end = match step.next {
            NextModel::Continue => StepModel {
                outputs: Seq::empty(),
                progress: self.at(step.watch, PhaseModel::Following { starts }),
            },
            NextModel::Ended => StepModel {
                outputs: Seq::empty(),
                progress: self.at(step.watch, PhaseModel::Exiting { starts }),
            },
            NextModel::Finished(outcome) => DetachedModel {
                watch: step.watch,
                ..self
            }.after_session(outcome, now),
            NextModel::Failed(error) => DetachedModel { watch: step.watch, ..self }.after_session(
                Err(error),
                now,
            ),
        };
        StepModel { outputs: step.outputs + end.outputs, progress: end.progress }
    }

    /// What follows an event. One that the activation does not wait for
    /// changes nothing.
    pub open spec fn after(self, event: EventModel, now: u64) -> StepModel {
        let io_error = |error: std::io::Error| Err(ErrorModel::IoError { error });
        match (self.phase, event) {
            (PhaseModel::Connecting { starts }, EventModel::Connected(result)) => match result {
                Ok(()) => StepModel {
                    outputs: Seq::empty(),
                    progress: self.at(self.watch.begun(), PhaseModel::Following { starts }),
                },
                Err(error) => self.after_session(io_error(error), now),
            },
            (PhaseModel::Following { starts }, EventModel::Read(read)) => self.after_read(
                read,
                starts,
                now,
            ),
            (PhaseModel::Exiting { starts }, EventModel::Exited(result)) => self.after_session(
                match result {
                    Ok(exit) => Err(self.watch.ended(exit, starts, self.hostname)),
                    Err(error) => io_error(error),
                },
                now,
            ),
            (PhaseModel::Waiting { error }, EventModel::Waited) => StepModel {
                outputs: Seq::empty(),
                progress: self.after_wait(error.message(), now),
            },
            _ => StepModel { outputs: Seq::empty(), progress: ProgressModel::Going(self) },
        }
    }
}

impl Detached {
    #[verifier::type_invariant]
    spec fn well_formed(self) -> bool {
        self.phase@ matches PhaseModel::Waiting { error } ==> error.is_retryable()
    }

    /// Creates the activation that runs `command` in a unit.
    pub fn new(hostname: String, unit: String, command: Vec<String>, now: u64) -> (r: Self)
        ensures
            r@ == DetachedModel::new(hostname@, unit@, list::texts(command@), now),
    {
        Detached {
            hostname,
            command,
            watch: Watch::new(unit, now),
            phase: Phase::Connecting { starts: true },
        }
    }

    /// Returns what to tell the user before the first session.
    pub fn start_message(&self) -> (r: String)
        ensures
            r@ == "Starting activation in unit "@ + self@.watch.unit,
    {
        "Starting activation in unit ".to_string().concat(self.watch.unit.as_str())
    }

    /// Returns what the activation waits for.
    ///
    /// Only the first session starts the unit.
    pub fn action(&self, now: u64) -> (r: Action)
        ensures
            r@ == self@.awaits(now),
    {
        match &self.phase {
            Phase::Connecting { starts } => Action::Connect(
                if *starts {
                    self.watch.argv(Some(self.command.as_slice()))
                } else {
                    self.watch.argv(None)
                },
            ),
            Phase::Following { .. } => Action::Read(self.watch.limit(now)),
            Phase::Exiting { .. } => Action::Exit,
            Phase::Waiting { .. } => Action::Wait,
        }
    }

    /// Takes in the result of a session: the outcome of the activation, or
    /// the error that ended the session earlier.
    fn after_session(self, result: ColmenaResult<()>, now: u64) -> (r: Step)
        ensures
            r@ == self@.after_session(error::outcome(result), now),
    {
        let mut out: Vec<Output> = Vec::new();
        assert(watch::outputs(out@) =~= Seq::empty());
        let error: ColmenaError = match result {
            Ok(()) => {
                return Step {
                    outputs: out,
                    progress: Progress::Done { outcome: Ok(()), stop: true },
                };
            },
            Err(error) => error,
        };
        if !is_retryable(&error) {
            return Step {
                outputs: out,
                progress: Progress::Done { outcome: Err(error), stop: false },
            };
        }
        let mut watch: Watch = self.watch;
        let left: u64 = watch.left(now);
        if !watch.lost && left > 0 {
            watch.lost = true;
            let text: String = error.display();
            let message: String = "Lost contact with the host (".to_string().concat(
                text.as_str(),
            ).concat("), reconnecting for up to ").concat(
                number::render(left / SECOND).as_str(),
            ).concat(" seconds");
            assert(text@ == error@.message());
            assert(message@ == lost_message(error@, left as int));
            out.push(Output::Message(message));
            assert(watch::outputs(out@) =~= seq![
                OutputModel::Message(lost_message(error@, left as int)),
            ]);
        }
        Step {
            outputs: out,
            progress: Progress::Going(
                Detached {
                    hostname: self.hostname,
                    command: self.command,
                    watch,
                    phase: Phase::Waiting { error },
                },
            ),
        }
    }

    /// Decides whether another session follows a wait.
    ///
    /// A session started with no time left would only report its own timeout.
    fn after_wait(self, cause: String, now: u64) -> (r: Progress)
        ensures
            r@ == self@.after_wait(cause@, now),
    {
        if self.watch.left(now) > 0 {
            let phase: Phase = Phase::Connecting { starts: false };
            return Progress::Going(
                Detached {
                    hostname: self.hostname,
                    command: self.command,
                    watch: self.watch,
                    phase,
                },
            );
        }
        let reason: String = match self.watch.unreadable {
            Some(reason) => reason,
            None => cause,
        };
        Progress::Done {
            outcome: Err(
                ColmenaError::ActivationUnreachable {
                    hostname: self.hostname,
                    unit: self.watch.unit,
                    timeout: ACTIVATION_RECONNECT_TIMEOUT,
                    reason,
                },
            ),
            stop: false,
        }
    }

    /// Takes in what came of waiting for the next line of the session.
    fn after_read(self, read: Read, starts: bool, now: u64) -> (r: Step)
        ensures
            r@ == self@.after_read(read@, starts, now),
    {
        let ghost met = self@.watch.after_read(read@, self@.hostname, now);
        let mut watch: Watch = self.watch;
        let step = watch.follow(read, self.hostname.as_str(), now);
        let mut out: Vec<Output> = step.outputs;
        assert(met.outputs + Seq::empty() =~= met.outputs);
        let (phase, result) = match step.next {
            Next::Continue => (Phase::Following { starts }, None),
            Next::Ended => (Phase::Exiting { starts }, None),
            Next::Finished(outcome) => (Phase::Following { starts }, Some(outcome)),
            Next::Failed(error) => (Phase::Following { starts }, Some(Err(error))),
        };
        let next = Detached { hostname: self.hostname, command: self.command, watch, phase };
        match result {
            None => Step { outputs: out, progress: Progress::Going(next) },
            Some(result) => {
                let mut end = next.after_session(result, now);
                let ghost (first, more) = (out@, end.outputs@);
                out.append(&mut end.outputs);
                assert(watch::outputs(first + more) =~= met.outputs + watch::outputs(more));
                Step { outputs: out, progress: end.progress }
            },
        }
    }

    /// Takes in what came of an action and returns how the activation goes on.
    pub fn step(self, event: Event, now: u64) -> (r: Step)
        ensures
            r@ == self@.after(event@, now),
    {
        let none: Vec<Output> = Vec::new();
        assert(watch::outputs(none@) =~= Seq::empty());
        match (&self.phase, event) {
            (Phase::Connecting { starts }, Event::Connected(result)) => {
                let starts: bool = *starts;
                match result {
                    Ok(()) => {
                        let mut watch: Watch = self.watch;
                        watch.begin();
                        let phase: Phase = Phase::Following { starts };
                        Step {
                            outputs: none,
                            progress: Progress::Going(
                                Detached {
                                    hostname: self.hostname,
                                    command: self.command,
                                    watch,
                                    phase,
                                },
                            ),
                        }
                    },
                    Err(error) => self.after_session(Err(ColmenaError::from(error)), now),
                }
            },
            (Phase::Following { starts }, Event::Read(read)) => {
                let starts: bool = *starts;
                self.after_read(read, starts, now)
            },
            (Phase::Exiting { starts }, Event::Exited(result)) => {
                let error: ColmenaError = match result {
                    Ok(exit) => self.watch.ended(exit, *starts, self.hostname.as_str()),
                    Err(error) => ColmenaError::from(error),
                };
                self.after_session(Err(error), now)
            },
            (Phase::Waiting { error }, Event::Waited) => {
                proof {
                    use_type_invariant(&self);
                }
                let cause: String = error.display();
                assert(cause@ == error@.message());
                Step { outputs: none, progress: self.after_wait(cause, now) }
            },
            _ => Step { outputs: none, progress: Progress::Going(self) },
        }
    }
}

/// What the user is told when a finished unit could not be stopped.
pub open spec fn stop_message_text(unit: Seq<char>) -> Seq<char> {
    "Could not stop the finished unit "@ + unit + ", it stays until `systemctl stop "@ + unit
        + "`"@
}

/// Returns what to tell the user after an attempt to stop a finished unit:
/// nothing if it was stopped in time.
pub fn stop_message(unit: &str, stopped: bool) -> (r: Option<String>)
    ensures
        list::opt_text(r) == if stopped {
            None::<Seq<char>>
        } else {
            Some(stop_message_text(unit@))
        },
{
    if stopped {
        None
    } else {
        Some(
            "Could not stop the finished unit ".to_string().concat(unit).concat(
                ", it stays until `systemctl stop ",
            ).concat(unit).concat("`"),
        )
    }
}

/// A unit is stopped exactly if the activation succeeded. One that failed is
/// kept for inspection.
pub proof fn law_only_a_success_stops_the_unit(
    activation: DetachedModel,
    event: EventModel,
    now: u64,
)
    ensures
        activation.after(event, now).progress matches ProgressModel::Done { outcome, stop } ==> (
        stop <==> outcome is Ok),
{
}

/// Whether an activation takes in an event as a whole line of its session.
pub open spec fn takes_line(activation: DetachedModel, event: EventModel) -> bool {
    match event {
        EventModel::Read(ReadModel::Line { bytes, .. }) => activation.phase is Following
            && watch::is_whole(bytes),
        _ => false,
    }
}

/// Whether an event is a line that reports the success of the unit.
pub open spec fn reports_success(event: EventModel) -> bool {
    match event {
        EventModel::Read(ReadModel::Line { text, .. }) => record::record_of(
            text::without_final_newlines(text),
        ) == Some(RecordModel::Status(StateModel::Succeeded)),
        _ => false,
    }
}

/// An activation succeeds exactly with a whole line of its session that
/// reports the success of the unit. The unit is then to be stopped.
pub proof fn law_success_is_reported_by_the_host(
    activation: DetachedModel,
    event: EventModel,
    now: u64,
)
    ensures
        activation.after(event, now).progress == (ProgressModel::Done {
            outcome: Ok(()),
            stop: true,
        }) <==> takes_line(activation, event) && reports_success(event),
        activation.after(event, now).progress matches ProgressModel::Done { outcome, .. } && outcome
            is Ok ==> takes_line(activation, event) && reports_success(event),
{
}

/// The error of a unit whose host stayed unreachable for too long.
pub open spec fn is_unreachable(activation: DetachedModel, progress: ProgressModel) -> bool {
    match progress {
        ProgressModel::Done {
            outcome: Err(ErrorModel::ActivationUnreachable { hostname, unit, timeout, .. }),
            stop,
        } => hostname == activation.hostname && unit == activation.watch.unit && timeout
            == ACTIVATION_RECONNECT_TIMEOUT && !stop,
        _ => false,
    }
}

/// An activation ends with lost contact exactly after a lost session and a
/// wait, once the last status record is as old as the window for reconnecting
/// is long. The error names the host and the unit, and the unit is kept.
pub proof fn law_gives_up_exactly_after_the_window(
    activation: DetachedModel,
    event: EventModel,
    now: u64,
)
    ensures
        is_unreachable(activation, activation.after(event, now).progress) <==> activation.phase
            is Waiting && event is Waited && activation.watch.contact
            + ACTIVATION_RECONNECT_TIMEOUT <= now,
        activation.after(event, now).progress matches ProgressModel::Done {
            outcome: Err(ErrorModel::ActivationUnreachable { .. }),
            ..
        } ==> is_unreachable(activation, activation.after(event, now).progress),
{
}

/// A session that was lost is followed by another one while time is left.
pub proof fn law_reconnects_within_the_window(activation: DetachedModel, now: u64)
    requires
        activation.phase is Waiting,
        now < activation.watch.contact + ACTIVATION_RECONNECT_TIMEOUT,
    ensures
        activation.after(EventModel::Waited, now).progress == activation.at(
            activation.watch,
            PhaseModel::Connecting { starts: false },
        ),
{
}

/// What several events lead to, each at its time. Those after the end of the
/// activation change nothing.
pub open spec fn run(activation: DetachedModel, events: Seq<(EventModel, u64)>) -> StepModel
    decreases events.len(),
{
    if events.len() == 0 {
        StepModel { outputs: Seq::empty(), progress: ProgressModel::Going(activation) }
    } else {
        let before = run(activation, events.drop_last());
        match before.progress {
            ProgressModel::Going(next) => {
                let step = next.after(events.last().0, events.last().1);
                StepModel { outputs: before.outputs + step.outputs, progress: step.progress }
            },
            ProgressModel::Done { .. } => before,
        }
    }
}

/// What the `i`th of several events brings to show.
pub open spec fn shown(
    activation: DetachedModel,
    events: Seq<(EventModel, u64)>,
    i: int,
) -> Seq<OutputModel> {
    match run(activation, events.take(i)).progress {
        ProgressModel::Going(next) => next.after(events[i].0, events[i].1).outputs,
        ProgressModel::Done { .. } => Seq::empty(),
    }
}

/// Whether the `i`th of several events is taken in as a whole line of a
/// session.
pub open spec fn line_arrives(
    activation: DetachedModel,
    events: Seq<(EventModel, u64)>,
    i: int,
) -> bool {
    match run(activation, events.take(i)).progress {
        ProgressModel::Going(next) => takes_line(next, events[i].0),
        ProgressModel::Done { .. } => false,
    }
}

/// Whether an output tells the user that contact is lost.
pub open spec fn tells_of_loss(output: OutputModel) -> bool {
    match output {
        OutputModel::Message(message) => text::begins_with(
            message,
            "Lost contact with the host ("@,
        ),
        OutputModel::Stderr(_) => false,
    }
}

/// Whether one of the outputs tells the user that contact is lost.
pub open spec fn announces(outputs: Seq<OutputModel>) -> bool {
    exists|k: int| 0 <= k < outputs.len() && tells_of_loss(#[trigger] outputs[k])
}

proof fn lemma_line_announces_nothing(
    watch: WatchModel,
    line: Seq<char>,
    hostname: Seq<char>,
    now: u64,
)
    ensures
        !announces(watch.after_line(line, hostname, now).outputs),
        watch.after_line(line, hostname, now).next matches NextModel::Failed(e)
            ==> !e.is_retryable(),
        watch.after_line(line, hostname, now).next matches NextModel::Finished(Err(e))
            ==> !e.is_retryable(),
{
    reveal_strlit("Lost contact with the host (");
    reveal_strlit("Reconnected to the host");
    reveal_strlit("Could not read the journal of unit ");
    let loss = "Lost contact with the host ("@;
    let outputs = watch.after_line(line, hostname, now).outputs;
    let greeting = watch.greeting();
    assert forall|k: int| 0 <= k < outputs.len() implies !tells_of_loss(#[trigger] outputs[k]) by {
        if let OutputModel::Message(message) = outputs[k] {
            if k < greeting.len() {
                assert(outputs[k] == greeting[k]);
                assert(message[0] == 'R');
            } else {
                let record = record::record_of(line)->0;
                let more = watch.met().after_record(record, hostname, now).outputs;
                assert(outputs[k] == more[k - greeting.len()]);
                assert(message[0] == 'C');
            }
            if text::begins_with(message, loss) {
                assert(message.take(loss.len() as int)[0] == loss[0]);
            }
        }
    }
}

/// What an event does to whether contact counts as lost.
proof fn lemma_lost(activation: DetachedModel, event: EventModel, now: u64)
    ensures
        ({
            let step = activation.after(event, now);
            &&& announces(step.outputs) ==> {
                &&& !activation.watch.lost
                &&& !takes_line(activation, event)
                &&& step.outputs.len() == 1
            }
            &&& step.progress matches ProgressModel::Going(next) ==> {
                next.watch.lost == if takes_line(activation, event) {
                    activation.watch.lost && activation.watch.answered
                } else {
                    activation.watch.lost || announces(step.outputs)
                }
            }
        }),
{
    let step = activation.after(event, now);
    lemma_session_end_announces(activation, now);
    match (activation.phase, event) {
        (PhaseModel::Following { starts }, EventModel::Read(read)) => {
            let met = activation.watch.after_read(read, activation.hostname, now);
            if let ReadModel::Line { bytes, text } = read {
                if watch::is_whole(bytes) {
                    lemma_line_announces_nothing(
                        activation.watch,
                        text::without_final_newlines(text),
                        activation.hostname,
                        now,
                    );
                    assert(step.outputs =~= met.outputs);
                }
            }
            if !takes_line(activation, event) {
                assert(met.outputs =~= Seq::empty());
                if let NextModel::Failed(error) = met.next {
                    assert(step.outputs =~= activation.after_session(Err(error), now).outputs);
                } else {
                    assert(step.outputs =~= Seq::empty());
                }
            }
        },
        _ => {},
    }
}

/// A lost session is announced exactly if contact does not count as lost yet
/// and time is left.
proof fn lemma_session_end_announces(activation: DetachedModel, now: u64)
    ensures
        forall|result: Result<(), ErrorModel>|
            announces((#[trigger] activation.after_session(result, now)).outputs) <==> (
            result matches Err(error) && error.is_retryable() && activation.loses_contact(now)),
{
    assert forall|result: Result<(), ErrorModel>|
        announces((#[trigger] activation.after_session(result, now)).outputs) <==> (
        result matches Err(error) && error.is_retryable() && activation.loses_contact(now)) by {
        let outputs = activation.after_session(result, now).outputs;
        if let Err(error) = result {
            if error.is_retryable() && activation.loses_contact(now) {
                let message = lost_message(error, activation.watch.left(now));
                let loss = "Lost contact with the host ("@;
                assert(message.take(loss.len() as int) =~= loss);
                assert(tells_of_loss(outputs[0]));
            }
        }
    }
}

proof fn lemma_run_take(activation: DetachedModel, events: Seq<(EventModel, u64)>, i: int)
    requires
        0 <= i < events.len(),
    ensures
        ({
            let before = run(activation, events.take(i));
            let after = run(activation, events.take(i + 1));
            match before.progress {
                ProgressModel::Going(next) => {
                    let step = next.after(events[i].0, events[i].1);
                    after.progress == step.progress && after.outputs == before.outputs
                        + step.outputs
                },
                ProgressModel::Done { .. } => after == before,
            }
        }),
{
    assert(events.take(i + 1).drop_last() =~= events.take(i));
    assert(events.take(i + 1).last() == events[i]);
}

/// Contact counts as lost from an announcement on until a line arrives.
proof fn lemma_loss_lasts(
    activation: DetachedModel,
    events: Seq<(EventModel, u64)>,
    i: int,
    m: int,
)
    requires
        0 <= i < m <= events.len(),
        announces(shown(activation, events, i)),
        forall|k: int| i < k < m ==> !line_arrives(activation, events, k),
    ensures
        run(activation, events.take(m)).progress matches ProgressModel::Going(next)
            ==> next.watch.lost,
    decreases m,
{
    lemma_run_take(activation, events, m - 1);
    if i < m - 1 {
        lemma_loss_lasts(activation, events, i, m - 1);
        assert(!line_arrives(activation, events, m - 1));
    }
    if let ProgressModel::Going(next) = run(activation, events.take(m - 1)).progress {
        let (event, time) = events[m - 1];
        lemma_lost(next, event, time);
    }
}

/// The user is told once per outage that contact is lost: between two
/// messages of that, a whole line arrived from the host. An event brings no
/// more than one of them, and nothing else along with it.
pub proof fn law_an_outage_is_announced_once(
    activation: DetachedModel,
    events: Seq<(EventModel, u64)>,
    i: int,
    j: int,
)
    requires
        0 <= i < j < events.len(),
        announces(shown(activation, events, i)),
        announces(shown(activation, events, j)),
    ensures
        exists|k: int| i < k < j && #[trigger] line_arrives(activation, events, k),
        shown(activation, events, i).len() == 1,
{
    if let ProgressModel::Going(next) = run(activation, events.take(i)).progress {
        lemma_lost(next, events[i].0, events[i].1);
    }
    if forall|k: int| i < k < j ==> !line_arrives(activation, events, k) {
        lemma_loss_lasts(activation, events, i, j);
        if let ProgressModel::Going(next) = run(activation, events.take(j)).progress {
            lemma_lost(next, events[j].0, events[j].1);
        }
    }
}

/// Whether the user was told that contact is lost since a line last arrived.
pub open spec fn outage_announced(
    activation: DetachedModel,
    events: Seq<(EventModel, u64)>,
) -> bool
    decreases events.len(),
{
    if events.len() == 0 {
        false
    } else {
        let last = events.len() - 1;
        if line_arrives(activation, events, last) {
            false
        } else {
            announces(shown(activation, events, last)) || outage_announced(
                activation,
                events.drop_last(),
            )
        }
    }
}

/// An activation knows of an outage exactly if the user does: contact counts
/// as lost exactly from the message until the next line of the host.
///
/// A session lost to a connection is therefore announced exactly if the user
/// was not told yet and time is left to reconnect.
pub proof fn law_outages_are_announced(
    hostname: Seq<char>,
    unit: Seq<char>,
    command: Seq<Seq<char>>,
    started: u64,
    events: Seq<(EventModel, u64)>,
)
    ensures
        ({
            let new = DetachedModel::new(hostname, unit, command, started);
            run(new, events).progress matches ProgressModel::Going(next) ==> {
                &&& next.watch.lost <==> outage_announced(new, events)
                &&& forall|error: ErrorModel, now: u64|
                    error.is_retryable() ==> (#[trigger] next.after_session(
                        Err(error),
                        now,
                    )).outputs == if !outage_announced(new, events) && next.watch.left(now) > 0 {
                        seq![OutputModel::Message(lost_message(error, next.watch.left(now)))]
                    } else {
                        Seq::empty()
                    }
            }
        }),
{
    lemma_outage(DetachedModel::new(hostname, unit, command, started), events);
}

proof fn lemma_outage(new: DetachedModel, events: Seq<(EventModel, u64)>)
    requires
        !new.watch.lost,
    ensures
        run(new, events).progress matches ProgressModel::Going(next) ==> {
            &&& next.watch.lost <==> outage_announced(new, events)
            &&& next.phase is Following && next.watch.answered ==> !next.watch.lost
        },
    decreases events.len(),
{
    if events.len() > 0 {
        let front = events.drop_last();
        let last = events.len() - 1;
        lemma_outage(new, front);
        assert(events.take(last) =~= front);
        if let ProgressModel::Going(next) = run(new, front).progress {
            let (event, time) = events[last];
            lemma_lost(next, event, time);
        }
    }
}

/// Whether one of the outputs tells the user that contact is restored.
pub open spec fn tells_of_contact(outputs: Seq<OutputModel>) -> bool {
    exists|k: int|
        0 <= k < outputs.len() && #[trigger] outputs[k] == OutputModel::Message(
            "Reconnected to the host"@,
        )
}

/// Whether one of the outputs tells the user that the journal of a unit cannot
/// be read.
pub open spec fn tells_of_journal(outputs: Seq<OutputModel>) -> bool {
    exists|k: int|
        0 <= k < outputs.len() && match #[trigger] outputs[k] {
            OutputModel::Message(message) => text::begins_with(
                message,
                "Could not read the journal of unit "@,
            ),
            OutputModel::Stderr(_) => false,
        }
}

/// Which messages the end of a session brings: none but that contact is lost.
proof fn lemma_session_end_tells(
    activation: DetachedModel,
    result: Result<(), ErrorModel>,
    now: u64,
)
    ensures
        !tells_of_contact(activation.after_session(result, now).outputs),
        !tells_of_journal(activation.after_session(result, now).outputs),
{
    reveal_strlit("Lost contact with the host (");
    reveal_strlit("Reconnected to the host");
    reveal_strlit("Could not read the journal of unit ");
    let outputs = activation.after_session(result, now).outputs;
    let failure = "Could not read the journal of unit "@;
    if outputs.len() > 0 {
        let message = outputs[0]->Message_0;
        assert(message[0] == 'L');
        assert("Reconnected to the host"@[0] == 'R');
        if text::begins_with(message, failure) {
            assert(message.take(failure.len() as int)[0] == failure[0]);
        }
    }
}

/// Which messages a line brings.
proof fn lemma_line_tells(watch: WatchModel, line: Seq<char>, hostname: Seq<char>, now: u64)
    ensures
        ({
            let step = watch.after_line(line, hostname, now);
            &&& tells_of_contact(step.outputs) ==> watch.lost && !watch.answered
            &&& tells_of_journal(step.outputs) ==> !watch.journal_failed
                && step.watch.journal_failed
            &&& watch.journal_failed ==> step.watch.journal_failed
        }),
{
    reveal_strlit("Reconnected to the host");
    reveal_strlit("Could not read the journal of unit ");
    let step = watch.after_line(line, hostname, now);
    let greeting = watch.greeting();
    let failure = "Could not read the journal of unit "@;
    let contact = "Reconnected to the host"@;
    if tells_of_contact(step.outputs) {
        let k = choose|k: int|
            0 <= k < step.outputs.len() && #[trigger] step.outputs[k] == OutputModel::Message(
                contact,
            );
        if k >= greeting.len() {
            let record = record::record_of(line)->0;
            let more = watch.met().after_record(record, hostname, now).outputs;
            assert(step.outputs[k] == more[k - greeting.len()]);
            assert(contact[0] == 'R');
        }
    }
    if tells_of_journal(step.outputs) {
        let k = choose|k: int|
            0 <= k < step.outputs.len() && match #[trigger] step.outputs[k] {
                OutputModel::Message(message) => text::begins_with(message, failure),
                OutputModel::Stderr(_) => false,
            };
        let message = step.outputs[k]->Message_0;
        assert(message.take(failure.len() as int)[0] == failure[0]);
        if k < greeting.len() {
            assert(step.outputs[k] == greeting[k]);
            assert(message[0] == 'R');
        } else {
            let record = record::record_of(line)->0;
            let more = watch.met().after_record(record, hostname, now).outputs;
            assert(step.outputs[k] == more[k - greeting.len()]);
        }
    }
}

/// Which messages an event brings.
proof fn lemma_event_tells(activation: DetachedModel, event: EventModel, now: u64)
    ensures
        ({
            let step = activation.after(event, now);
            &&& tells_of_contact(step.outputs) ==> takes_line(activation, event)
                && activation.watch.lost && !activation.watch.answered
            &&& tells_of_journal(step.outputs) ==> !activation.watch.journal_failed
            &&& step.progress matches ProgressModel::Going(next) ==> {
                activation.watch.journal_failed || tells_of_journal(step.outputs)
                    ==> next.watch.journal_failed
            }
        }),
{
    let step = activation.after(event, now);
    match (activation.phase, event) {
        (PhaseModel::Connecting { .. }, EventModel::Connected(Err(error))) => {
            lemma_session_end_tells(activation, Err(ErrorModel::IoError { error }), now);
        },
        (PhaseModel::Following { .. }, EventModel::Read(read)) => {
            let met = activation.watch.after_read(read, activation.hostname, now);
            let over = DetachedModel { watch: met.watch, ..activation };
            if let ReadModel::Line { bytes, text } = read {
                if watch::is_whole(bytes) {
                    let line = text::without_final_newlines(text);
                    lemma_line_tells(activation.watch, line, activation.hostname, now);
                    lemma_line_announces_nothing(
                        activation.watch,
                        line,
                        activation.hostname,
                        now,
                    );
                    assert(step.outputs =~= met.outputs);
                }
            }
            if !takes_line(activation, event) {
                if let NextModel::Failed(error) = met.next {
                    lemma_session_end_tells(over, Err(error), now);
                    assert(step.outputs =~= over.after_session(Err(error), now).outputs);
                } else {
                    assert(step.outputs =~= Seq::empty());
                }
            }
        },
        (PhaseModel::Exiting { starts }, EventModel::Exited(result)) => {
            let error = match result {
                Ok(exit) => activation.watch.ended(exit, starts, activation.hostname),
                Err(error) => ErrorModel::IoError { error },
            };
            lemma_session_end_tells(activation, Err(error), now);
        },
        _ => {},
    }
}

/// Contact does not count as lost from a message that it is restored on until
/// one that it is lost.
proof fn lemma_contact_lasts(
    activation: DetachedModel,
    events: Seq<(EventModel, u64)>,
    i: int,
    m: int,
)
    requires
        0 <= i < m <= events.len(),
        tells_of_contact(shown(activation, events, i)),
        forall|k: int| i < k < m ==> !announces(#[trigger] shown(activation, events, k)),
    ensures
        run(activation, events.take(m)).progress matches ProgressModel::Going(next)
            ==> !next.watch.lost,
    decreases m,
{
    lemma_run_take(activation, events, m - 1);
    if i < m - 1 {
        lemma_contact_lasts(activation, events, i, m - 1);
        assert(!announces(shown(activation, events, m - 1)));
    }
    if let ProgressModel::Going(next) = run(activation, events.take(m - 1)).progress {
        let (event, time) = events[m - 1];
        lemma_lost(next, event, time);
        lemma_event_tells(next, event, time);
    }
}

/// The user is told once per outage that contact is restored: between two
/// messages of that, one told that contact was lost.
pub proof fn law_a_reconnection_is_announced_once(
    activation: DetachedModel,
    events: Seq<(EventModel, u64)>,
    i: int,
    j: int,
)
    requires
        0 <= i < j < events.len(),
        tells_of_contact(shown(activation, events, i)),
        tells_of_contact(shown(activation, events, j)),
    ensures
        exists|k: int| i < k < j && announces(#[trigger] shown(activation, events, k)),
{
    if forall|k: int| i < k < j ==> !announces(#[trigger] shown(activation, events, k)) {
        lemma_contact_lasts(activation, events, i, j);
        if let ProgressModel::Going(next) = run(activation, events.take(j)).progress {
            lemma_event_tells(next, events[j].0, events[j].1);
        }
    }
}

proof fn lemma_journal_failure_lasts(
    activation: DetachedModel,
    events: Seq<(EventModel, u64)>,
    i: int,
    m: int,
)
    requires
        0 <= i < m <= events.len(),
        tells_of_journal(shown(activation, events, i)),
    ensures
        run(activation, events.take(m)).progress matches ProgressModel::Going(next)
            ==> next.watch.journal_failed,
    decreases m,
{
    lemma_run_take(activation, events, m - 1);
    if i < m - 1 {
        lemma_journal_failure_lasts(activation, events, i, m - 1);
    }
    if let ProgressModel::Going(next) = run(activation, events.take(m - 1)).progress {
        let (event, time) = events[m - 1];
        lemma_event_tells(next, event, time);
    }
}

/// The user is told once per activation that the journal of its unit cannot be
/// read, however many sessions it takes.
pub proof fn law_a_journal_failure_is_announced_once(
    activation: DetachedModel,
    events: Seq<(EventModel, u64)>,
    i: int,
    j: int,
)
    requires
        0 <= i < j < events.len(),
        tells_of_journal(shown(activation, events, i)),
    ensures
        !tells_of_journal(shown(activation, events, j)),
{
    lemma_journal_failure_lasts(activation, events, i, j);
    if let ProgressModel::Going(next) = run(activation, events.take(j)).progress {
        lemma_event_tells(next, events[j].0, events[j].1);
    }
}

/// Whether an activation is about to start its unit.
pub open spec fn is_starting(activation: DetachedModel) -> bool {
    activation.phase == (PhaseModel::Connecting { starts: true })
}

/// The unit is started by the first session and by no other: once a session
/// was begun, none is told to start the unit.
pub proof fn law_the_unit_is_started_once(
    hostname: Seq<char>,
    unit: Seq<char>,
    command: Seq<Seq<char>>,
    now: u64,
    events: Seq<(EventModel, u64)>,
    i: int,
)
    requires
        0 <= i < events.len(),
        events[i].0 is Connected,
    ensures
        is_starting(DetachedModel::new(hostname, unit, command, now)),
        run(DetachedModel::new(hostname, unit, command, now), events).progress matches
            ProgressModel::Going(next) ==> !is_starting(next),
    decreases events.len(),
{
    let new = DetachedModel::new(hostname, unit, command, now);
    let front = events.drop_last();
    if i < front.len() {
        assert(front[i] == events[i]);
        law_the_unit_is_started_once(hostname, unit, command, now, front, i);
    }
}

/// Whether a line streams the journal of the unit on: it is the next line of
/// the journal, or a cursor that stands where it is sent.
pub open spec fn streams_on(
    watch: WatchModel,
    line: Seq<char>,
    journal: Seq<Seq<char>>,
    at: spec_fn(Seq<char>) -> int,
) -> bool {
    let n = watch::position(watch.cursor, at) + watch.pending.len();
    match record::record_of(line) {
        Some(RecordModel::Log(text)) => n < journal.len() && journal[n] == text,
        Some(RecordModel::Cursor(cursor)) => at(cursor) == n,
        _ => true,
    }
}

/// Whether the host streams the journal of the unit in every session of an
/// activation, from the cursor on that the session was given.
pub open spec fn host_streams(
    activation: DetachedModel,
    events: Seq<(EventModel, u64)>,
    journal: Seq<Seq<char>>,
    at: spec_fn(Seq<char>) -> int,
) -> bool
    decreases events.len(),
{
    events.len() > 0 ==> {
        &&& host_streams(activation, events.drop_last(), journal, at)
        &&& match (run(activation, events.drop_last()).progress, events.last().0) {
            (
                ProgressModel::Going(next),
                EventModel::Read(ReadModel::Line { bytes, text }),
            ) => next.phase is Following && watch::is_whole(bytes) ==> streams_on(
                next.watch,
                text::without_final_newlines(text),
                journal,
                at,
            ),
            _ => true,
        }
    }
}

/// Whether a watch has printed the journal up to its cursor, and holds what
/// came after it.
spec fn in_step(
    watch: WatchModel,
    printed: Seq<Seq<char>>,
    journal: Seq<Seq<char>>,
    at: spec_fn(Seq<char>) -> int,
) -> bool {
    let to = watch::position(watch.cursor, at);
    let sent = to + watch.pending.len();
    &&& 0 <= to <= sent <= journal.len()
    &&& printed == journal.take(to)
    &&& watch.pending == journal.subrange(to, sent)
}

proof fn lemma_session_end_prints_nothing(
    activation: DetachedModel,
    result: Result<(), ErrorModel>,
    now: u64,
)
    ensures
        watch::printed(activation.after_session(result, now).outputs) == Seq::<Seq<char>>::empty(),
{
    let outputs = activation.after_session(result, now).outputs;
    if outputs.len() > 0 {
        assert(outputs.drop_last() =~= Seq::empty());
        assert(watch::printed(outputs.drop_last()) =~= Seq::empty());
    }
}

proof fn lemma_line_keeps_in_step(
    watch: WatchModel,
    line: Seq<char>,
    hostname: Seq<char>,
    now: u64,
    printed: Seq<Seq<char>>,
    journal: Seq<Seq<char>>,
    at: spec_fn(Seq<char>) -> int,
)
    requires
        in_step(watch, printed, journal, at),
        streams_on(watch, line, journal, at),
    ensures
        ({
            let step = watch.after_line(line, hostname, now);
            in_step(step.watch, printed + watch::printed(step.outputs), journal, at)
        }),
{
    watch::lemma_line_keeps_journal(watch, line, hostname, now);
    let step = watch.after_line(line, hostname, now);
    let to = watch::position(watch.cursor, at);
    let sent = to + watch.pending.len();
    let after = printed + watch::printed(step.outputs);
    match record::record_of(line) {
        Some(RecordModel::Log(text)) => {
            assert(after =~= printed);
            assert(journal.subrange(to, sent + 1) =~= journal.subrange(to, sent).push(text));
        },
        Some(RecordModel::Cursor(cursor)) => {
            assert(after =~= journal.take(sent));
            assert(step.watch.pending =~= journal.subrange(sent, sent));
        },
        _ => {
            assert(after =~= printed);
        },
    }
}

/// However many sessions an activation takes, and wherever they drop, the
/// journal of the unit is printed in order, without a gap and without a line
/// twice. While the activation goes on, it is printed up to the cursor that
/// the next session resumes after.
pub proof fn law_the_journal_is_printed_once(
    hostname: Seq<char>,
    unit: Seq<char>,
    command: Seq<Seq<char>>,
    now: u64,
    events: Seq<(EventModel, u64)>,
    journal: Seq<Seq<char>>,
    at: spec_fn(Seq<char>) -> int,
)
    requires
        host_streams(DetachedModel::new(hostname, unit, command, now), events, journal, at),
    ensures
        ({
            let end = run(DetachedModel::new(hostname, unit, command, now), events);
            let printed = watch::printed(end.outputs);
            &&& printed.len() <= journal.len()
            &&& printed == journal.take(printed.len() as int)
            &&& end.progress matches ProgressModel::Going(next) ==> printed.len()
                == watch::position(next.watch.cursor, at)
        }),
{
    lemma_journal(DetachedModel::new(hostname, unit, command, now), events, journal, at);
}

proof fn lemma_journal(
    new: DetachedModel,
    events: Seq<(EventModel, u64)>,
    journal: Seq<Seq<char>>,
    at: spec_fn(Seq<char>) -> int,
)
    requires
        new.watch.cursor is None,
        new.watch.pending.len() == 0,
        host_streams(new, events, journal, at),
    ensures
        ({
            let end = run(new, events);
            let printed = watch::printed(end.outputs);
            &&& printed.len() <= journal.len()
            &&& printed == journal.take(printed.len() as int)
            &&& end.progress matches ProgressModel::Going(next) ==> in_step(
                next.watch,
                printed,
                journal,
                at,
            )
        }),
    decreases events.len(),
{
    let end = run(new, events);
    if events.len() == 0 {
        assert(watch::printed(end.outputs) =~= journal.take(0));
        assert(new.watch.pending =~= journal.subrange(0, 0));
    } else {
        let front = events.drop_last();
        lemma_journal(new, front, journal, at);
        let before = run(new, front);
        if let ProgressModel::Going(next) = before.progress {
            let (event, time) = events.last();
            let printed = watch::printed(before.outputs);
            let step = next.after(event, time);
            watch::lemma_printed_add(before.outputs, step.outputs);
            let to = watch::position(next.watch.cursor, at);
            let none = Seq::<Seq<char>>::empty();
            assert(watch::printed(Seq::<OutputModel>::empty()) =~= none);
            assert(printed + none =~= printed);
            match (next.phase, event) {
                (PhaseModel::Connecting { starts }, EventModel::Connected(result)) => {
                    match result {
                        Ok(()) => {
                            assert(next.watch.begun().pending =~= journal.subrange(to, to));
                        },
                        Err(error) => {
                            lemma_session_end_prints_nothing(
                                next,
                                Err(ErrorModel::IoError { error }),
                                time,
                            );
                        },
                    }
                },
                (PhaseModel::Following { starts }, EventModel::Read(read)) => {
                    let met = next.watch.after_read(read, next.hostname, time);
                    if let ReadModel::Line { bytes, text } = read {
                        if watch::is_whole(bytes) {
                            lemma_line_keeps_in_step(
                                next.watch,
                                text::without_final_newlines(text),
                                next.hostname,
                                time,
                                printed,
                                journal,
                                at,
                            );
                        }
                    }
                    assert(in_step(met.watch, printed + watch::printed(met.outputs), journal, at));
                    let over = DetachedModel { watch: met.watch, ..next };
                    let rest = match met.next {
                        NextModel::Finished(outcome) => {
                            lemma_session_end_prints_nothing(over, outcome, time);
                            over.after_session(outcome, time).outputs
                        },
                        NextModel::Failed(error) => {
                            lemma_session_end_prints_nothing(over, Err(error), time);
                            over.after_session(Err(error), time).outputs
                        },
                        _ => Seq::empty(),
                    };
                    watch::lemma_printed_add(met.outputs, rest);
                    assert(step.outputs == met.outputs + rest);
                    assert(watch::printed(met.outputs) + none =~= watch::printed(met.outputs));
                },
                (PhaseModel::Exiting { starts }, EventModel::Exited(result)) => {
                    let error = match result {
                        Ok(exit) => next.watch.ended(exit, starts, next.hostname),
                        Err(error) => ErrorModel::IoError { error },
                    };
                    lemma_session_end_prints_nothing(next, Err(error), time);
                },
                _ => {},
            }
        }
    }
}

/// A session that exits before the unit finished is followed by another one,
/// unless it was to start the unit, brought no record, and failed for another
/// reason than a lost connection.
pub proof fn law_ended_session_is_retried(
    watch: WatchModel,
    exit: ExitStatus,
    start: bool,
    hostname: Seq<char>,
)
    ensures
        watch.ended(exit, start, hostname).is_retryable() <==> !(start && !watch.answered && exit
            != ExitStatus::Code(0) && exit != ExitStatus::Code(255)),
{
}

/// What a status of the unit does to an activation that follows it. The
/// activation goes on while the unit runs. Otherwise it is over: with a
/// success, and the unit to be stopped, if the unit succeeded, and with the
/// error that tells what became of the unit if it did not.
pub proof fn law_a_final_status_ends_the_activation(
    activation: DetachedModel,
    bytes: Seq<u8>,
    text: Seq<char>,
    state: StateModel,
    now: u64,
)
    requires
        activation.phase is Following,
        bytes.len() > 0,
        bytes.last() == 10,
        record::record_of(text::without_final_newlines(text)) == Some(RecordModel::Status(state)),
    ensures
        ({
            let progress = activation.after(
                EventModel::Read(ReadModel::Line { bytes, text }),
                now,
            ).progress;
            let (hostname, unit) = (activation.hostname, activation.watch.unit);
            let failed = |e: ErrorModel| ProgressModel::Done { outcome: Err(e), stop: false };
            match state {
                StateModel::Running => progress matches ProgressModel::Going(next) && next.phase
                    == activation.phase,
                StateModel::Succeeded => progress == (ProgressModel::Done {
                    outcome: Ok(()),
                    stop: true,
                }),
                StateModel::NotFound => progress == failed(
                    if activation.watch.seen {
                        ErrorModel::ActivationUnitVanished { hostname, unit }
                    } else {
                        ErrorModel::ActivationUnitNotFound { hostname, unit }
                    },
                ),
                StateModel::Failed { result, exit } => progress == failed(
                    ErrorModel::ActivationFailed { hostname, unit, result, exit },
                ),
            }
        }),
{
    watch::law_a_status_tells_the_outcome(
        activation.watch,
        text::without_final_newlines(text),
        state,
        activation.hostname,
        now,
    );
}

/// What any other line does to an activation that follows its unit: a record
/// keeps it going in the session, a whole line that is no record ends it with
/// that line, and a cut line leaves only the exit of the session to wait for.
pub proof fn law_other_lines_keep_the_session_going(
    activation: DetachedModel,
    bytes: Seq<u8>,
    text: Seq<char>,
    now: u64,
)
    requires
        activation.phase is Following,
    ensures
        ({
            let line = text::without_final_newlines(text);
            let whole = bytes.len() > 0 && bytes.last() == 10;
            let step = activation.after(EventModel::Read(ReadModel::Line { bytes, text }), now);
            let starts = activation.phase->Following_starts;
            let watched = activation.watch.after_line(line, activation.hostname, now);
            let same = DetachedModel { watch: watched.watch, ..activation };
            &&& whole ==> match record::record_of(line) {
                Some(RecordModel::Status(_)) => true,
                Some(_) => step.progress == ProgressModel::Going(same),
                None => step.progress == (ProgressModel::Done {
                    outcome: Err(ErrorModel::ActivationBadOutput { line }),
                    stop: false,
                }),
            }
            &&& whole ==> step.outputs == watched.outputs
            &&& !whole ==> step.outputs.len() == 0 && step.progress == ProgressModel::Going(
                DetachedModel { phase: PhaseModel::Exiting { starts }, ..activation },
            )
        }),
{
    let line = text::without_final_newlines(text);
    let watched = activation.watch.after_line(line, activation.hostname, now);
    assert(watched.outputs + Seq::empty() =~= watched.outputs);
}

/// How a session that ended without an outcome goes on. If its error may come
/// from a lost connection, the activation waits to reconnect, and keeps what
/// it knows. Any other error ends the activation as it is, and the unit is
/// kept.
pub proof fn law_errors_end_or_pause_the_activation(
    activation: DetachedModel,
    error: std::io::Error,
    exit: ExitStatus,
    now: u64,
)
    ensures
        ({
            let io = ProgressModel::Done {
                outcome: Err(ErrorModel::IoError { error }),
                stop: false,
            };
            let after = |event: EventModel| activation.after(event, now).progress;
            match activation.phase {
                PhaseModel::Connecting { starts } => {
                    &&& after(EventModel::Connected(Err(error))) == io
                    &&& after(EventModel::Connected(Ok(()))) == ProgressModel::Going(
                        DetachedModel {
                            watch: activation.watch.begun(),
                            phase: PhaseModel::Following { starts },
                            ..activation
                        },
                    )
                },
                PhaseModel::Following { .. } => {
                    &&& after(EventModel::Read(ReadModel::Failed(error))) == io
                    &&& waits_after(
                        activation,
                        after(EventModel::Read(ReadModel::TimedOut)),
                        ErrorModel::ActivationStepTimeout,
                        now,
                    )
                },
                PhaseModel::Exiting { starts } => {
                    let told = activation.watch.ended(exit, starts, activation.hostname);
                    let lost = told is ChildFailure || told is ChildKilled || told
                        is ActivationWatchEnded;
                    &&& after(EventModel::Exited(Err(error))) == io
                    &&& lost ==> waits_after(
                        activation,
                        after(EventModel::Exited(Ok(exit))),
                        told,
                        now,
                    )
                    &&& !lost ==> after(EventModel::Exited(Ok(exit))) == (
                    ProgressModel::Done { outcome: Err(told), stop: false })
                },
                PhaseModel::Waiting { .. } => true,
            }
        }),
{
}

/// Whether an activation waits to reconnect after an error. It keeps all it
/// knows, but that contact counts as lost once the user was told, for which
/// time must be left.
pub open spec fn waits_after(
    activation: DetachedModel,
    progress: ProgressModel,
    error: ErrorModel,
    now: u64,
) -> bool {
    progress == ProgressModel::Going(
        DetachedModel {
            watch: WatchModel {
                lost: activation.watch.lost || activation.watch.left(now) > 0,
                ..activation.watch
            },
            phase: PhaseModel::Waiting { error },
            ..activation
        },
    )
}

/// An activation goes on exactly after a connect, a line of a unit that runs,
/// a line that is no status, the end of a session, an error that may come from
/// a lost connection, or a wait with time left. Any other event that it waits
/// for ends it.
pub proof fn law_an_activation_goes_on_only_for_a_reason(
    activation: DetachedModel,
    event: EventModel,
    now: u64,
)
    ensures
        activation.after(event, now).progress is Going <==> match (activation.phase, event) {
            (PhaseModel::Connecting { .. }, EventModel::Connected(result)) => result is Ok,
            (PhaseModel::Following { .. }, EventModel::Read(read)) => match read {
                ReadModel::Line { bytes, text } => bytes.len() == 0 || bytes.last() != 10
                    || match record::record_of(text::without_final_newlines(text)) {
                    Some(RecordModel::Status(state)) => state is Running,
                    Some(_) => true,
                    None => false,
                },
                ReadModel::TimedOut => true,
                ReadModel::Failed(_) => false,
            },
            (PhaseModel::Exiting { starts }, EventModel::Exited(Ok(exit))) => !(starts
                && !activation.watch.answered && exit != ExitStatus::Code(0) && exit
                != ExitStatus::Code(255)),
            (PhaseModel::Exiting { .. }, EventModel::Exited(Err(_))) => false,
            (PhaseModel::Waiting { .. }, EventModel::Waited) => now < activation.watch.contact
                + 60_000_000_000,
            _ => true,
        },
{
}

/// An event that an activation does not wait for changes nothing and shows
/// nothing.
pub proof fn law_unexpected_events_change_nothing(
    activation: DetachedModel,
    event: EventModel,
    now: u64,
)
    requires
        match activation.phase {
            PhaseModel::Connecting { .. } => !(event is Connected),
            PhaseModel::Following { .. } => !(event is Read),
            PhaseModel::Exiting { .. } => !(event is Exited),
            PhaseModel::Waiting { .. } => !(event is Waited),
        },
    ensures
        activation.after(event, now).progress == ProgressModel::Going(activation),
        activation.after(event, now).outputs.len() == 0,
{
}

/// What follows a wait. While the last status record is younger than 60
/// seconds, another session runs that does not start the unit and resumes after
/// the cursor. Otherwise the activation ends, and the error gives the reason
/// of systemctl if there was one, and the message of the lost session if not.
pub proof fn law_a_wait_is_followed_by_a_session_or_the_end(
    activation: DetachedModel,
    error: ErrorModel,
    now: u64,
    later: u64,
)
    requires
        activation.phase == (PhaseModel::Waiting { error }),
    ensures
        ({
            let step = activation.after(EventModel::Waited, now);
            let cursor = match activation.watch.cursor {
                Some(cursor) => cursor,
                None => Seq::empty(),
            };
            let reason = match activation.watch.unreadable {
                Some(reason) => reason,
                None => error.message(),
            };
            let (hostname, unit) = (activation.hostname, activation.watch.unit);
            &&& step.outputs.len() == 0
            &&& now < activation.watch.contact + 60_000_000_000 ==> (step.progress matches
                ProgressModel::Going(next) && next.watch == activation.watch && next.hostname
                == hostname && next.command == activation.command && next.awaits(later)
                == ActionModel::Connect(seq!["sh"@, "-s"@, unit, "0"@, cursor]))
            &&& now >= activation.watch.contact + 60_000_000_000 ==> step.progress == (
            ProgressModel::Done {
                outcome: Err(
                    ErrorModel::ActivationUnreachable {
                        hostname,
                        unit,
                        timeout: 60_000_000_000,
                        reason,
                    },
                ),
                stop: false,
            })
        }),
{
}

/// What an activation waits for: a session to connect to, which starts the
/// unit with its command if it is the first, a line of the session, within the
/// limit, its exit, or the time to reconnect.
pub proof fn law_an_activation_waits_for_its_phase(
    activation: DetachedModel,
    hostname: Seq<char>,
    unit: Seq<char>,
    command: Seq<Seq<char>>,
    started: u64,
    now: u64,
)
    ensures
        ({
            let new = DetachedModel::new(hostname, unit, command, started);
            &&& new.awaits(now) == ActionModel::Connect(
                seq!["sh"@, "-s"@, unit, "1"@, Seq::<char>::empty()] + command,
            )
            &&& new.hostname == hostname
            &&& new.command == command
            &&& new.watch.contact == started
        }),
        match activation.phase {
            PhaseModel::Connecting { starts } => activation.awaits(now) == ActionModel::Connect(
                activation.watch.argv(
                    if starts {
                        Some(activation.command)
                    } else {
                        None
                    },
                ),
            ),
            PhaseModel::Following { .. } => activation.awaits(now) == ActionModel::Read(
                activation.watch.limit(now),
            ),
            PhaseModel::Exiting { .. } => activation.awaits(now) == ActionModel::Exit,
            PhaseModel::Waiting { .. } => activation.awaits(now) == ActionModel::Wait,
        },
{
}

/// The message of a lost session names the error it was lost to, and the whole seconds
/// that are left of the minute since the last status record.
pub proof fn law_the_loss_message_counts_the_seconds(
    activation: DetachedModel,
    now: u64,
)
    requires
        activation.phase is Following,
        !activation.watch.lost,
        activation.watch.contact <= now < activation.watch.contact + 60_000_000_000,
    ensures
        activation.after(EventModel::Read(ReadModel::TimedOut), now).outputs == seq![
            OutputModel::Message(
                "Lost contact with the host ("@ + "No answer from the activation watch"@
                    + "), reconnecting for up to "@ + number::decimal(
                    (60_000_000_000 - (now - activation.watch.contact)) / 1_000_000_000,
                ) + " seconds"@,
            ),
        ],
{
    let outputs = activation.after(EventModel::Read(ReadModel::TimedOut), now).outputs;
    assert(outputs =~= seq![
        OutputModel::Message(
            lost_message(ErrorModel::ActivationStepTimeout, activation.watch.left(now)),
        ),
    ]);
}

/// The errors that are retried are those that may come from a lost connection.
pub proof fn law_only_lost_connections_are_retried(error: ErrorModel)
    ensures
        error.is_retryable() <==> error is ChildFailure || error is ChildKilled || error
            == ErrorModel::ActivationStepTimeout || error == ErrorModel::ActivationWatchEnded,
{
}

/// A unit is named after its ID, and a unit that could not be stopped is named
/// with the command that stops it.
pub proof fn law_units_are_named_after_their_id(id: Seq<char>)
    ensures
        unit_text(id) == "colmena-activate-"@ + id,
        stop_message_text(id) == "Could not stop the finished unit "@ + id
            + ", it stays until `systemctl stop "@ + id + "`"@,
{
}

/// A lost session is retried every 2 seconds, so that some thirty retries fit
/// in the window for reconnecting.
pub proof fn law_sessions_are_retried_every_two_seconds()
    ensures
        ACTIVATION_RETRY_INTERVAL == 2 * SECOND,
        ACTIVATION_RECONNECT_TIMEOUT == 30 * ACTIVATION_RETRY_INTERVAL,
        SECOND == 1_000_000_000,
{
}

} // verus!

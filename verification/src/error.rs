//! Custom error types.

use vstd::prelude::*;

use crate::number;
use crate::profile::Profile;
use crate::store::StorePath;
use crate::system::{Goal, SystemType};

verus! {

/// An I/O error of the operating system.
#[verifier::external_type_specification]
#[verifier::external_body]
pub struct ExIoError(std::io::Error);

/// The errors of a configuration that failed its validation.
#[verifier::external_type_specification]
#[verifier::external_body]
pub struct ExValidationErrors(validator::ValidationErrors);

/// Where in the program an error was made.
#[verifier::external_type_specification]
#[verifier::external_body]
pub struct ExBacktrace(snafu::Backtrace);

/// A second, in the nanoseconds that points in time and spans are counted in.
pub const SECOND: u64 = 1_000_000_000;

pub type ColmenaResult<T> = Result<T, ColmenaError>;

#[non_exhaustive]
#[allow(inconsistent_fields)]
#[derive(Debug)]
pub enum ColmenaError {
    IoError { error: std::io::Error },
    BadOutput { output: String },
    ChildFailure { exit_code: i32, backtrace: snafu::Backtrace },
    ChildKilled { signal: i32, backtrace: snafu::Backtrace },
    Unsupported,
    UnsupportedGoal { goal: Goal, system_type: SystemType },
    InvalidStorePath,
    ValidationError { errors: validator::ValidationErrors },
    AttributeEvaluationError,
    /// The key failed with the given message.
    KeyError { name: String, error: String },
    NotADerivation { store_path: StorePath },
    ActiveProfileUnknown { profile: Profile },
    ActiveProfileUnexpected { profile: Profile },
    FailedToGetCurrentProfile,
    /// The host stayed silent for `timeout` nanoseconds.
    ActivationUnreachable { hostname: String, unit: String, timeout: u64, reason: String },
    ActivationStartFailed { hostname: String, unit: String, source: Box<ColmenaError> },
    ActivationUnitNotFound { hostname: String, unit: String },
    ActivationUnitVanished { hostname: String, unit: String },
    ActivationFailed { hostname: String, unit: String, result: String, exit: Option<UnitExit> },
    ActivationStepTimeout,
    ActivationWatchEnded,
    ActivationBadOutput { line: String },
    NoTargetHost,
    EmptyNodeName,
    EmptyFilterRule,
    Unknown { message: String },
    ExecError { n_hosts: usize },
}

/// What an error says went wrong.
///
/// The backtrace of a child process is no part of that: it tells where in the
/// program the error was made, which depends on how the program was built.
#[allow(inconsistent_fields)]
pub enum ErrorModel {
    IoError { error: std::io::Error },
    BadOutput { output: Seq<char> },
    ChildFailure { exit_code: i32 },
    ChildKilled { signal: i32 },
    Unsupported,
    UnsupportedGoal { goal: Goal, system_type: SystemType },
    InvalidStorePath,
    ValidationError { errors: validator::ValidationErrors },
    AttributeEvaluationError,
    KeyError { name: Seq<char>, error: Seq<char> },
    NotADerivation { store_path: Seq<char> },
    ActiveProfileUnknown { profile: Seq<char> },
    ActiveProfileUnexpected { profile: Seq<char> },
    FailedToGetCurrentProfile,
    ActivationUnreachable {
        hostname: Seq<char>,
        unit: Seq<char>,
        timeout: u64,
        reason: Seq<char>,
    },
    ActivationStartFailed { hostname: Seq<char>, unit: Seq<char>, source: Box<ErrorModel> },
    ActivationUnitNotFound { hostname: Seq<char>, unit: Seq<char> },
    ActivationUnitVanished { hostname: Seq<char>, unit: Seq<char> },
    ActivationFailed {
        hostname: Seq<char>,
        unit: Seq<char>,
        result: Seq<char>,
        exit: Option<UnitExit>,
    },
    ActivationStepTimeout,
    ActivationWatchEnded,
    ActivationBadOutput { line: Seq<char> },
    NoTargetHost,
    EmptyNodeName,
    EmptyFilterRule,
    Unknown { message: Seq<char> },
    ExecError { n_hosts: usize },
}

impl ColmenaError {
    /// What the error says went wrong.
    pub open spec fn model(self) -> ErrorModel
        decreases self,
    {
        match self {
            ColmenaError::IoError { error } => ErrorModel::IoError { error },
            ColmenaError::BadOutput { output } => ErrorModel::BadOutput { output: output@ },
            ColmenaError::ChildFailure { exit_code, .. } => ErrorModel::ChildFailure { exit_code },
            ColmenaError::ChildKilled { signal, .. } => ErrorModel::ChildKilled { signal },
            ColmenaError::Unsupported => ErrorModel::Unsupported,
            ColmenaError::UnsupportedGoal { goal, system_type } => ErrorModel::UnsupportedGoal {
                goal,
                system_type,
            },
            ColmenaError::InvalidStorePath => ErrorModel::InvalidStorePath,
            ColmenaError::ValidationError { errors } => ErrorModel::ValidationError { errors },
            ColmenaError::AttributeEvaluationError => ErrorModel::AttributeEvaluationError,
            ColmenaError::KeyError { name, error } => ErrorModel::KeyError {
                name: name@,
                error: error@,
            },
            ColmenaError::NotADerivation { store_path } => ErrorModel::NotADerivation {
                store_path: store_path@,
            },
            ColmenaError::ActiveProfileUnknown { profile } => ErrorModel::ActiveProfileUnknown {
                profile: profile@,
            },
            ColmenaError::ActiveProfileUnexpected { profile } =>
                ErrorModel::ActiveProfileUnexpected { profile: profile@ },
            ColmenaError::FailedToGetCurrentProfile => ErrorModel::FailedToGetCurrentProfile,
            ColmenaError::ActivationUnreachable { hostname, unit, timeout, reason } =>
                ErrorModel::ActivationUnreachable {
                hostname: hostname@,
                unit: unit@,
                timeout,
                reason: reason@,
            },
            ColmenaError::ActivationStartFailed { hostname, unit, source } =>
                ErrorModel::ActivationStartFailed {
                hostname: hostname@,
                unit: unit@,
                source: Box::new((*source).model()),
            },
            ColmenaError::ActivationUnitNotFound { hostname, unit } =>
                ErrorModel::ActivationUnitNotFound { hostname: hostname@, unit: unit@ },
            ColmenaError::ActivationUnitVanished { hostname, unit } =>
                ErrorModel::ActivationUnitVanished { hostname: hostname@, unit: unit@ },
            ColmenaError::ActivationFailed { hostname, unit, result, exit } =>
                ErrorModel::ActivationFailed {
                hostname: hostname@,
                unit: unit@,
                result: result@,
                exit,
            },
            ColmenaError::ActivationStepTimeout => ErrorModel::ActivationStepTimeout,
            ColmenaError::ActivationWatchEnded => ErrorModel::ActivationWatchEnded,
            ColmenaError::ActivationBadOutput { line } => ErrorModel::ActivationBadOutput {
                line: line@,
            },
            ColmenaError::NoTargetHost => ErrorModel::NoTargetHost,
            ColmenaError::EmptyNodeName => ErrorModel::EmptyNodeName,
            ColmenaError::EmptyFilterRule => ErrorModel::EmptyFilterRule,
            ColmenaError::Unknown { message } => ErrorModel::Unknown { message: message@ },
            ColmenaError::ExecError { n_hosts } => ErrorModel::ExecError { n_hosts },
        }
    }
}

impl View for ColmenaError {
    type V = ErrorModel;

    open spec fn view(&self) -> ErrorModel {
        self.model()
    }
}

/// What a result without a value holds.
pub open spec fn outcome(r: ColmenaResult<()>) -> Result<(), ErrorModel> {
    match r {
        Ok(()) => Ok(()),
        Err(e) => Err(e@),
    }
}

/// How the main process of a finished systemd unit ended.
#[derive(Debug, Clone, Copy, PartialEq, Eq, Structural)]
pub enum UnitExit {
    Status(i32),
    Signal(i32),
}

impl UnitExit {
    /// The text of an exit.
    pub open spec fn text(self) -> Seq<char> {
        match self {
            UnitExit::Status(status) => "exit status "@ + number::decimal(status as int),
            UnitExit::Signal(signal) => "killed by signal "@ + number::decimal(signal as int),
        }
    }

    /// Returns the text of the exit.
    pub fn display(&self) -> (r: String)
        ensures
            r@ == self.text(),
    {
        match *self {
            UnitExit::Status(status) => "exit status ".to_string().concat(
                number::render_i32(status).as_str(),
            ),
            UnitExit::Signal(signal) => "killed by signal ".to_string().concat(
                number::render_i32(signal).as_str(),
            ),
        }
    }
}

/// How a child process ended.
#[derive(Debug, Clone, Copy, PartialEq, Eq, Structural)]
pub enum ExitStatus {
    /// It exited with a code.
    Code(i32),
    /// It was killed by a signal.
    Signal(i32),
}

impl ExitStatus {
    /// The error of a process that ended this way.
    pub open spec fn error(self) -> ErrorModel {
        match self {
            ExitStatus::Code(exit_code) => ErrorModel::ChildFailure { exit_code },
            ExitStatus::Signal(signal) => ErrorModel::ChildKilled { signal },
        }
    }

    /// Returns whether the process exited with code 0.
    pub fn success(&self) -> (r: bool)
        ensures
            r == (*self == ExitStatus::Code(0)),
    {
        match *self {
            ExitStatus::Code(code) => code == 0,
            ExitStatus::Signal(_) => false,
        }
    }

    /// Returns the error of the process, unless it exited with code 0.
    pub fn result(self) -> (r: ColmenaResult<()>)
        ensures
            outcome(r) == if self == ExitStatus::Code(0) {
                Ok::<(), ErrorModel>(())
            } else {
                Err(self.error())
            },
    {
        if self.success() {
            Ok(())
        } else {
            Err(ColmenaError::from(self))
        }
    }
}

impl From<std::io::Error> for ColmenaError {
    fn from(error: std::io::Error) -> (r: Self) {
        ColmenaError::IoError { error }
    }
}

impl vstd::std_specs::convert::FromSpecImpl<std::io::Error> for ColmenaError {
    open spec fn obeys_from_spec() -> bool {
        true
    }

    open spec fn from_spec(error: std::io::Error) -> Self {
        ColmenaError::IoError { error }
    }
}

impl From<validator::ValidationErrors> for ColmenaError {
    fn from(errors: validator::ValidationErrors) -> (r: Self) {
        ColmenaError::ValidationError { errors }
    }
}

impl vstd::std_specs::convert::FromSpecImpl<validator::ValidationErrors> for ColmenaError {
    open spec fn obeys_from_spec() -> bool {
        true
    }

    open spec fn from_spec(errors: validator::ValidationErrors) -> Self {
        ColmenaError::ValidationError { errors }
    }
}

/// Captures a backtrace with snafu's `GenerateImplicitData::generate`.
///
/// It depends on where it is called and on how the program was built, so
/// nothing is said of it.
#[verifier::external_body]
fn capture_backtrace() -> (r: snafu::Backtrace) {
    snafu::GenerateImplicitData::generate()
}

impl From<ExitStatus> for ColmenaError {
    fn from(status: ExitStatus) -> (r: Self)
        ensures
            r@ == status.error(),
    {
        let backtrace = capture_backtrace();
        match status {
            ExitStatus::Code(exit_code) => ColmenaError::ChildFailure { exit_code, backtrace },
            ExitStatus::Signal(signal) => ColmenaError::ChildKilled { signal, backtrace },
        }
    }
}

// Two errors of one exit differ in their backtraces, so the clause of `from`
// speaks of what they say in place of an equation.
impl vstd::std_specs::convert::FromSpecImpl<ExitStatus> for ColmenaError {
    open spec fn obeys_from_spec() -> bool {
        false
    }

    open spec fn from_spec(status: ExitStatus) -> Self {
        arbitrary()
    }
}

/// The text of a string in Rust's debug format.
pub uninterp spec fn debug_text(s: Seq<char>) -> Seq<char>;

/// Formats a string with the `Debug` format of `str`, which depends on the
/// string alone.
#[verifier::external_body]
fn debug_format(s: &str) -> (r: String)
    ensures
        r@ == debug_text(s@),
{
    format!("{:?}", s)
}

/// Returns the message of an I/O error, with `std::io::Error::to_string`.
///
/// The operating system words it, so nothing is said of the text.
#[verifier::external_body]
fn io_message(error: &std::io::Error) -> (r: String) {
    error.to_string()
}

impl ErrorModel {
    /// Whether the error is an I/O error, or was caused by one.
    pub open spec fn is_io(self) -> bool
        decreases self,
    {
        match self {
            ErrorModel::IoError { .. } => true,
            ErrorModel::ActivationStartFailed { source, .. } => source.is_io(),
            _ => false,
        }
    }

    /// The message of the error, where the operating system words an I/O
    /// error as `cause`.
    pub open spec fn message_with(self, cause: Seq<char>) -> Seq<char>
        decreases self,
    {
        match self {
            ErrorModel::IoError { .. } => "I/O Error: "@ + cause,
            ErrorModel::BadOutput { output } => "Nix returned invalid response: "@ + output,
            ErrorModel::ChildFailure { exit_code } => "Child process exited with error code: "@
                + number::decimal(exit_code as int),
            ErrorModel::ChildKilled { signal } => "Child process was killed by signal "@
                + number::decimal(signal as int),
            ErrorModel::Unsupported => "This operation is not supported"@,
            ErrorModel::UnsupportedGoal { goal, system_type } => "The "@ + goal.name_text()
                + " goal is not supported on "@ + system_type.name_text() + " nodes"@,
            ErrorModel::InvalidStorePath => "Invalid Nix store path"@,
            ErrorModel::ValidationError { .. } => "Validation error"@,
            ErrorModel::AttributeEvaluationError => "Some attributes failed to evaluate"@,
            ErrorModel::KeyError { name, error } => "Error processing key \""@ + name + "\": "@
                + error,
            ErrorModel::NotADerivation { store_path } => "Store path StorePath("@ + debug_text(
                store_path,
            ) + ") is not a derivation"@,
            ErrorModel::ActiveProfileUnknown { profile } =>
                "Unknown active profile: Profile(StorePath("@ + debug_text(profile) + "))"@,
            ErrorModel::ActiveProfileUnexpected { profile } =>
                "Unexpected active profile: Profile(StorePath("@ + debug_text(profile) + "))"@,
            ErrorModel::FailedToGetCurrentProfile => "Could not determine current profile"@,
            ErrorModel::ActivationUnreachable { hostname, unit, timeout, reason } =>
                "Lost contact with host "@ + hostname + " for "@ + number::decimal(
                (timeout / SECOND) as int,
            ) + " seconds, activation unit "@ + unit + " is in an unknown state: "@ + reason,
            ErrorModel::ActivationStartFailed { hostname, unit, source } =>
                "Could not start activation unit "@ + unit + " on host "@ + hostname + " ("@
                + source.message_with(cause)
                + "), set deployment.detachedActivation = false to activate in the SSH session"@,
            ErrorModel::ActivationUnitNotFound { hostname, unit } => "Activation unit "@ + unit
                + " on host "@ + hostname
                + " does not exist, the SSH session may have dropped before systemd-run ran"@,
            ErrorModel::ActivationUnitVanished { hostname, unit } => "Activation unit "@ + unit
                + " on host "@ + hostname
                + " disappeared before it finished, it was stopped or the host rebooted"@,
            ErrorModel::ActivationFailed { hostname, unit, result, exit } => "Activation unit "@
                + unit + " on host "@ + hostname + " failed with result "@ + result + match exit {
                Some(exit) => ", "@ + exit.text(),
                None => Seq::empty(),
            },
            ErrorModel::ActivationStepTimeout => "No answer from the activation watch"@,
            ErrorModel::ActivationWatchEnded =>
                "The activation watch ended before the unit finished"@,
            ErrorModel::ActivationBadOutput { line } =>
                "Unexpected line from the activation watch: "@ + line,
            ErrorModel::NoTargetHost => "Don't know how to connect to the node"@,
            ErrorModel::EmptyNodeName => "Node name cannot be empty"@,
            ErrorModel::EmptyFilterRule => "Filter rule cannot be empty"@,
            ErrorModel::Unknown { message } => "Unknown error: "@ + message,
            ErrorModel::ExecError { n_hosts } => "Exec failed on "@ + number::decimal(
                n_hosts as int,
            ) + " hosts"@,
        }
    }

    /// The message of an error that no I/O error caused.
    pub open spec fn message(self) -> Seq<char> {
        self.message_with(Seq::empty())
    }

    /// Whether `text` is a message of the error: for an I/O error, one with
    /// some wording of the operating system.
    pub open spec fn says(self, text: Seq<char>) -> bool {
        exists|cause: Seq<char>| text == #[trigger] self.message_with(cause)
    }
}

/// An error that no I/O error caused has one message.
proof fn lemma_one_message(error: ErrorModel, cause: Seq<char>)
    requires
        !error.is_io(),
    ensures
        error.message_with(cause) == error.message(),
    decreases error,
{
    if let ErrorModel::ActivationStartFailed { source, .. } = error {
        lemma_one_message(*source, cause);
    }
}

impl ColmenaError {
    /// Creates an error from the message of an error of unknown kind.
    pub fn unknown(message: String) -> (r: Self)
        ensures
            r@ == (ErrorModel::Unknown { message: message@ }),
    {
        ColmenaError::Unknown { message }
    }

    /// Returns how the operating system words the I/O error that this error
    /// is or was caused by, if there is one.
    fn io_cause(&self) -> (r: Option<String>)
        ensures
            r is Some == self@.is_io(),
        decreases self,
    {
        match self {
            ColmenaError::IoError { error } => Some(io_message(error)),
            ColmenaError::ActivationStartFailed { source, .. } => source.io_cause(),
            _ => None,
        }
    }

    /// Returns the message of the error.
    ///
    /// The operating system words an I/O error, see
    /// [`ColmenaError::display_with`] for what becomes of its words.
    pub fn display(&self) -> (r: String)
        ensures
            self@.says(r@),
            !self@.is_io() ==> r@ == self@.message(),
    {
        let cause: String = match self.io_cause() {
            Some(cause) => cause,
            None => String::new(),
        };
        let r: String = self.display_with(cause.as_str());
        assert(r@ == self@.message_with(cause@));
        proof {
            if !self@.is_io() {
                lemma_one_message(self@, cause@);
            }
        }
        r
    }

    /// Returns the message of the error, where the operating system words an
    /// I/O error as `cause`.
    pub fn display_with(&self, cause: &str) -> (r: String)
        ensures
            r@ == self@.message_with(cause@),
        decreases self,
    {
        match self {
            ColmenaError::IoError { error: _ } => "I/O Error: ".to_string().concat(cause),
            ColmenaError::BadOutput { output } => "Nix returned invalid response: ".to_string().concat(
            output.as_str()),
            ColmenaError::ChildFailure { exit_code, .. } =>
                "Child process exited with error code: ".to_string().concat(
                number::render_i32(*exit_code).as_str(),
            ),
            ColmenaError::ChildKilled { signal, .. } =>
                "Child process was killed by signal ".to_string().concat(
                number::render_i32(*signal).as_str(),
            ),
            ColmenaError::Unsupported => "This operation is not supported".to_string(),
            ColmenaError::UnsupportedGoal { goal, system_type } => "The ".to_string().concat(
                goal.name(),
            ).concat(" goal is not supported on ").concat(system_type.name()).concat(" nodes"),
            ColmenaError::InvalidStorePath => "Invalid Nix store path".to_string(),
            ColmenaError::ValidationError { errors: _ } => "Validation error".to_string(),
            ColmenaError::AttributeEvaluationError => "Some attributes failed to evaluate".to_string(),
            ColmenaError::KeyError { name, error } => "Error processing key \"".to_string().concat(
                name.as_str(),
            ).concat("\": ").concat(error.as_str()),
            ColmenaError::NotADerivation { store_path } => "Store path StorePath(".to_string().concat(
                debug_format(store_path.as_path()).as_str(),
            ).concat(") is not a derivation"),
            ColmenaError::ActiveProfileUnknown { profile } =>
                "Unknown active profile: Profile(StorePath(".to_string().concat(
                debug_format(profile.as_path()).as_str(),
            ).concat("))"),
            ColmenaError::ActiveProfileUnexpected { profile } =>
                "Unexpected active profile: Profile(StorePath(".to_string().concat(
                debug_format(profile.as_path()).as_str(),
            ).concat("))"),
            ColmenaError::FailedToGetCurrentProfile =>
                "Could not determine current profile".to_string(),
            ColmenaError::ActivationUnreachable { hostname, unit, timeout, reason } =>
                "Lost contact with host ".to_string().concat(hostname.as_str()).concat(
                " for ",
            ).concat(number::render(*timeout / SECOND).as_str()).concat(
                " seconds, activation unit ",
            ).concat(unit.as_str()).concat(" is in an unknown state: ").concat(reason.as_str()),
            ColmenaError::ActivationStartFailed { hostname, unit, source } => {
                let text: String = source.display_with(cause);
                "Could not start activation unit ".to_string().concat(unit.as_str()).concat(
                    " on host ",
                ).concat(hostname.as_str()).concat(" (").concat(text.as_str()).concat(
                    "), set deployment.detachedActivation = false to activate in the SSH session",
                )
            },
            ColmenaError::ActivationUnitNotFound { hostname, unit } =>
                "Activation unit ".to_string().concat(unit.as_str()).concat(" on host ").concat(
                hostname.as_str(),
            ).concat(" does not exist, the SSH session may have dropped before systemd-run ran"),
            ColmenaError::ActivationUnitVanished { hostname, unit } =>
                "Activation unit ".to_string().concat(unit.as_str()).concat(" on host ").concat(
                hostname.as_str(),
            ).concat(" disappeared before it finished, it was stopped or the host rebooted"),
            ColmenaError::ActivationFailed { hostname, unit, result, exit } => {
                let tail: String = match exit {
                    Some(exit) => ", ".to_string().concat(exit.display().as_str()),
                    None => String::new(),
                };
                "Activation unit ".to_string().concat(unit.as_str()).concat(" on host ").concat(
                    hostname.as_str(),
                ).concat(" failed with result ").concat(result.as_str()).concat(tail.as_str())
            },
            ColmenaError::ActivationStepTimeout =>
                "No answer from the activation watch".to_string(),
            ColmenaError::ActivationWatchEnded =>
                "The activation watch ended before the unit finished".to_string(),
            ColmenaError::ActivationBadOutput { line } =>
                "Unexpected line from the activation watch: ".to_string().concat(line.as_str()),
            ColmenaError::NoTargetHost => "Don't know how to connect to the node".to_string(),
            ColmenaError::EmptyNodeName => "Node name cannot be empty".to_string(),
            ColmenaError::EmptyFilterRule => "Filter rule cannot be empty".to_string(),
            ColmenaError::Unknown { message } => "Unknown error: ".to_string().concat(
                message.as_str(),
            ),
            ColmenaError::ExecError { n_hosts } => "Exec failed on ".to_string().concat(
                number::render(*n_hosts as u64).as_str(),
            ).concat(" hosts"),
        }
    }
}

/// A process that exited is a failed child with its code, and one that was
/// killed is a killed child with its signal.
pub proof fn law_exits_name_their_code(n: i32)
    ensures
        ExitStatus::Code(n).error() == (ErrorModel::ChildFailure { exit_code: n }),
        ExitStatus::Signal(n).error() == (ErrorModel::ChildKilled { signal: n }),
        (ErrorModel::ChildFailure { exit_code: n }).message()
            == "Child process exited with error code: "@ + number::decimal(n as int),
        (ErrorModel::ChildKilled { signal: n }).message() == "Child process was killed by signal "@
            + number::decimal(n as int),
{
}

/// The message of a failed activation names the unit, the host and the result,
/// and how the main process ended if it did.
pub proof fn law_failed_activations_say_how(
    hostname: Seq<char>,
    unit: Seq<char>,
    result: Seq<char>,
    n: i32,
)
    ensures
        ({
            let front = "Activation unit "@ + unit + " on host "@ + hostname
                + " failed with result "@ + result;
            let failed = |exit: Option<UnitExit>|
                (ErrorModel::ActivationFailed { hostname, unit, result, exit }).message();
            &&& failed(None) == front
            &&& failed(Some(UnitExit::Status(n))) == front + (", "@ + ("exit status "@
                + number::decimal(n as int)))
            &&& failed(Some(UnitExit::Signal(n))) == front + (", "@ + ("killed by signal "@
                + number::decimal(n as int)))
        }),
{
    let front = "Activation unit "@ + unit + " on host "@ + hostname + " failed with result "@
        + result;
    assert(front + Seq::empty() =~= front);
}

/// A failed start says why: its message holds the one of its cause, between a
/// front that names the unit and the host and a hint.
pub proof fn law_a_failed_start_says_why(
    hostname: Seq<char>,
    unit: Seq<char>,
    source: ErrorModel,
    cause: Seq<char>,
)
    ensures
        (ErrorModel::ActivationStartFailed {
            hostname,
            unit,
            source: Box::new(source),
        }).message_with(cause) == "Could not start activation unit "@ + unit + " on host "@
            + hostname + " ("@ + source.message_with(cause)
            + "), set deployment.detachedActivation = false to activate in the SSH session"@,
{
}

/// A lost host is named with the unit, the seconds that passed and the reason.
pub proof fn law_a_lost_host_is_named(
    hostname: Seq<char>,
    unit: Seq<char>,
    timeout: u64,
    reason: Seq<char>,
)
    ensures
        (ErrorModel::ActivationUnreachable { hostname, unit, timeout, reason }).message()
            == "Lost contact with host "@ + hostname + " for "@ + number::decimal(
            (timeout / 1_000_000_000) as int,
        ) + " seconds, activation unit "@ + unit + " is in an unknown state: "@ + reason,
{
}

/// Messages show what their error is about.
pub proof fn law_messages_show_their_values(
    a: Seq<char>,
    b: Seq<char>,
    goal: Goal,
    n: usize,
)
    ensures
        (ErrorModel::BadOutput { output: a }).message() == "Nix returned invalid response: "@ + a,
        (ErrorModel::KeyError { name: a, error: b }).message() == "Error processing key \""@ + a
            + "\": "@ + b,
        (ErrorModel::ActivationUnitNotFound { hostname: a, unit: b }).message()
            == "Activation unit "@ + b + " on host "@ + a
            + " does not exist, the SSH session may have dropped before systemd-run ran"@,
        (ErrorModel::ActivationUnitVanished { hostname: a, unit: b }).message()
            == "Activation unit "@ + b + " on host "@ + a
            + " disappeared before it finished, it was stopped or the host rebooted"@,
        (ErrorModel::ActivationBadOutput { line: a }).message()
            == "Unexpected line from the activation watch: "@ + a,
        (ErrorModel::Unknown { message: a }).message() == "Unknown error: "@ + a,
        (ErrorModel::ExecError { n_hosts: n }).message() == "Exec failed on "@ + number::decimal(
            n as int,
        ) + " hosts"@,
        (ErrorModel::UnsupportedGoal { goal, system_type: SystemType::NixOS }).message() == "The "@
            + goal.name_text() + " goal is not supported on "@ + "NixOS"@ + " nodes"@,
        (ErrorModel::UnsupportedGoal { goal, system_type: SystemType::Darwin }).message() == "The "@
            + goal.name_text() + " goal is not supported on "@ + "darwin"@ + " nodes"@,
        (ErrorModel::ActiveProfileUnexpected { profile: a }).message()
            == "Unexpected active profile: Profile(StorePath("@ + debug_text(a) + "))"@,
        (ErrorModel::ActiveProfileUnknown { profile: a }).message()
            == "Unknown active profile: Profile(StorePath("@ + debug_text(a) + "))"@,
        (ErrorModel::NotADerivation { store_path: a }).message() == "Store path StorePath("@
            + debug_text(a) + ") is not a derivation"@,
        (ErrorModel::ActivationStepTimeout).message() == "No answer from the activation watch"@,
        (ErrorModel::ActivationWatchEnded).message()
            == "The activation watch ended before the unit finished"@,
{
}

} // verus!

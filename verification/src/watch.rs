//! What the deployer knows about a detached activation.
//!
//! The watch runs on the host over SSH and prints records about the unit. A
//! session with it may drop at any time, and the next one resumes where the
//! last one stopped. Points in time are nanoseconds on a clock that does not
//! go back.

use vstd::prelude::*;

use crate::error;
use crate::error::{ColmenaError, ColmenaResult, ErrorModel, ExitStatus};
use crate::list;
use crate::record;
use crate::record::{ActivationState, Record, RecordModel, StateModel};
use crate::shell;
use crate::text;

verus! {

broadcast use list::lemma_texts_push;

/// How long the host may stay unreachable while an activation unit runs.
///
/// A network restart during activation drops the connection for a few
/// seconds. The window starts at the last state the watch reported, and a
/// host that stays down fails the deployment when it closes.
pub const ACTIVATION_RECONNECT_TIMEOUT: u64 = 60_000_000_000;

/// How long the watch may stay silent before its connection counts as lost.
///
/// The watch reports every 2 seconds. A network restart can drop an
/// established connection without a reset, and ssh would then wait forever
/// for the next line.
pub const ACTIVATION_STEP_TIMEOUT: u64 = 30_000_000_000;

/// What the deployer knows about a detached activation across watch sessions.
#[derive(Debug)]
pub struct Watch {
    pub unit: String,
    /// The journal position to resume streaming after.
    pub cursor: Option<String>,
    /// Journal lines of this session that wait for the cursor after them.
    pub pending: Vec<String>,
    /// Whether a record arrived in this session.
    pub answered: bool,
    /// Whether a status record ever showed the unit.
    pub seen: bool,
    /// When the last status record arrived.
    pub contact: u64,
    /// Whether a session was lost since the last one that answered.
    pub lost: bool,
    /// Why systemctl last failed to read the unit in this session.
    pub unreadable: Option<String>,
    /// Whether a journal failure was reported.
    pub journal_failed: bool,
}

/// What a watch holds.
#[verifier::ext_equal]
pub struct WatchModel {
    pub unit: Seq<char>,
    pub cursor: Option<Seq<char>>,
    pub pending: Seq<Seq<char>>,
    pub answered: bool,
    pub seen: bool,
    pub contact: u64,
    pub lost: bool,
    pub unreadable: Option<Seq<char>>,
    pub journal_failed: bool,
}

impl View for Watch {
    type V = WatchModel;

    open spec fn view(&self) -> WatchModel {
        WatchModel {
            unit: self.unit@,
            cursor: list::opt_text(self.cursor),
            pending: list::texts(self.pending@),
            answered: self.answered,
            seen: self.seen,
            contact: self.contact,
            lost: self.lost,
            unreadable: list::opt_text(self.unreadable),
            journal_failed: self.journal_failed,
        }
    }
}

/// What came of waiting for the next line of a session.
#[derive(Debug)]
pub enum Read {
    /// The bytes up to and with the next newline, or up to the end.
    Line(Vec<u8>),
    /// No line came within the limit.
    TimedOut,
    /// Reading failed.
    Failed(std::io::Error),
}

/// What came of waiting for the next line of a session.
pub enum ReadModel {
    /// The bytes of a line, and the text they decode to.
    Line { bytes: Seq<u8>, text: Seq<char> },
    TimedOut,
    Failed(std::io::Error),
}

impl View for Read {
    type V = ReadModel;

    open spec fn view(&self) -> ReadModel {
        match self {
            Read::Line(bytes) => ReadModel::Line { bytes: bytes@, text: lossy_text(bytes@) },
            Read::TimedOut => ReadModel::TimedOut,
            Read::Failed(error) => ReadModel::Failed(*error),
        }
    }
}

/// Something to show to the user.
#[derive(Debug, PartialEq, Eq)]
pub enum Output {
    /// A message of the deployer.
    Message(String),
    /// A line of the error output of the host.
    Stderr(String),
}

/// What an output holds.
pub enum OutputModel {
    Message(Seq<char>),
    Stderr(Seq<char>),
}

impl View for Output {
    type V = OutputModel;

    open spec fn view(&self) -> OutputModel {
        match self {
            Output::Message(message) => OutputModel::Message(message@),
            Output::Stderr(line) => OutputModel::Stderr(line@),
        }
    }
}

/// What to do after a line of a session.
#[derive(Debug)]
pub enum Next {
    /// Read another line.
    Continue,
    /// The session ended before the unit finished.
    Ended,
    /// The unit finished, with this outcome of the activation.
    Finished(ColmenaResult<()>),
    /// The session failed.
    Failed(ColmenaError),
}

/// What to do after a line of a session.
pub enum NextModel {
    Continue,
    Ended,
    Finished(Result<(), ErrorModel>),
    Failed(ErrorModel),
}

impl View for Next {
    type V = NextModel;

    open spec fn view(&self) -> NextModel {
        match self {
            Next::Continue => NextModel::Continue,
            Next::Ended => NextModel::Ended,
            Next::Finished(outcome) => NextModel::Finished(error::outcome(*outcome)),
            Next::Failed(e) => NextModel::Failed(e@),
        }
    }
}

/// What a line of a session leads to.
#[derive(Debug)]
pub struct Step {
    /// What to show first, in this order.
    pub outputs: Vec<Output>,
    pub next: Next,
}

/// The contents of a list of outputs.
pub open spec fn outputs(list: Seq<Output>) -> Seq<OutputModel> {
    list.map_values(|o: Output| o@)
}

/// A line of a session, or several: the watch after it and what it leads to.
#[verifier::ext_equal]
pub struct StepModel {
    pub watch: WatchModel,
    pub outputs: Seq<OutputModel>,
    pub next: NextModel,
}

/// The lines as error output of the host.
pub open spec fn as_stderr(lines: Seq<Seq<char>>) -> Seq<OutputModel> {
    lines.map_values(|line: Seq<char>| OutputModel::Stderr(line))
}

/// What the user is told when journalctl fails.
pub open spec fn journal_failed_message(unit: Seq<char>, status: Seq<char>) -> Seq<char> {
    "Could not read the journal of unit "@ + unit + ", journalctl exited with "@ + status
}

impl WatchModel {
    /// The watch of a unit that no session has looked at.
    pub open spec fn new(unit: Seq<char>, now: u64) -> Self {
        WatchModel {
            unit,
            cursor: None,
            pending: Seq::empty(),
            answered: false,
            seen: false,
            contact: now,
            lost: false,
            unreadable: None,
            journal_failed: false,
        }
    }

    /// The watch at the start of a session.
    pub open spec fn begun(self) -> Self {
        WatchModel { pending: Seq::empty(), answered: false, unreadable: None, ..self }
    }

    /// The remote command of a session, which first starts the unit with
    /// `start` if given.
    pub open spec fn argv(self, start: Option<Seq<Seq<char>>>) -> Seq<Seq<char>> {
        let cursor = match self.cursor {
            Some(cursor) => cursor,
            None => Seq::empty(),
        };
        match start {
            Some(command) => seq!["sh"@, "-s"@, self.unit, "1"@, cursor] + command,
            None => seq!["sh"@, "-s"@, self.unit, "0"@, cursor],
        }
    }

    /// How long ago the last status record arrived.
    pub open spec fn silence(self, now: u64) -> int {
        if now >= self.contact {
            now - self.contact
        } else {
            0
        }
    }

    /// How much of the window for reconnecting is left.
    pub open spec fn left(self, now: u64) -> int {
        if self.silence(now) <= ACTIVATION_RECONNECT_TIMEOUT {
            ACTIVATION_RECONNECT_TIMEOUT - self.silence(now)
        } else {
            0
        }
    }

    /// How long to wait for the next line.
    pub open spec fn limit(self, now: u64) -> int {
        if self.left(now) < ACTIVATION_STEP_TIMEOUT {
            self.left(now)
        } else {
            ACTIVATION_STEP_TIMEOUT as int
        }
    }

    /// The error of a session that exited before the unit finished.
    ///
    /// Before the first record, only a lost connection, for which ssh exits
    /// with 255, can have started the unit.
    pub open spec fn ended(self, exit: ExitStatus, start: bool, hostname: Seq<char>) -> ErrorModel {
        if exit == ExitStatus::Code(0) {
            ErrorModel::ActivationWatchEnded
        } else if start && !self.answered && exit != ExitStatus::Code(255) {
            ErrorModel::ActivationStartFailed {
                hostname,
                unit: self.unit,
                source: Box::new(exit.error()),
            }
        } else {
            exit.error()
        }
    }

    /// The watch after a status record.
    pub open spec fn observed(self, state: StateModel, now: u64) -> Self {
        WatchModel { seen: self.seen || !(state is NotFound), contact: now, ..self }
    }

    /// The outcome of the activation that a state shows, or `None` while it
    /// runs.
    pub open spec fn outcome(self, state: StateModel, hostname: Seq<char>) -> Option<
        Result<(), ErrorModel>,
    > {
        let unit = self.unit;
        match state {
            StateModel::Running => None,
            StateModel::Succeeded => Some(Ok(())),
            StateModel::NotFound => Some(
                Err(
                    if self.seen {
                        ErrorModel::ActivationUnitVanished { hostname, unit }
                    } else {
                        ErrorModel::ActivationUnitNotFound { hostname, unit }
                    },
                ),
            ),
            StateModel::Failed { result, exit } => Some(
                Err(ErrorModel::ActivationFailed { hostname, unit, result, exit }),
            ),
        }
    }

    /// A step that reads on.
    pub open spec fn step(self, outputs: Seq<OutputModel>) -> StepModel {
        StepModel { watch: self, outputs, next: NextModel::Continue }
    }

    /// What a record leads to.
    pub open spec fn after_record(
        self,
        record: RecordModel,
        hostname: Seq<char>,
        now: u64,
    ) -> StepModel {
        match record {
            RecordModel::Log(line) => WatchModel { pending: self.pending.push(line), ..self }.step(
                Seq::empty(),
            ),
            RecordModel::Cursor(cursor) => WatchModel {
                cursor: Some(cursor),
                pending: Seq::empty(),
                ..self
            }.step(as_stderr(self.pending)),
            RecordModel::JournalFailed(status) => WatchModel { journal_failed: true, ..self }.step(
                if self.journal_failed {
                    Seq::empty()
                } else {
                    seq![OutputModel::Message(journal_failed_message(self.unit, status))]
                },
            ),
            RecordModel::Unreadable(reason) => WatchModel {
                unreadable: Some(reason),
                ..self
            }.step(Seq::empty()),
            RecordModel::Status(state) => StepModel {
                watch: self.observed(state, now),
                outputs: Seq::empty(),
                next: match self.observed(state, now).outcome(state, hostname) {
                    Some(outcome) => NextModel::Finished(outcome),
                    None => NextModel::Continue,
                },
            },
        }
    }

    /// The watch after any line has arrived: the first record of a session
    /// ends an outage.
    pub open spec fn met(self) -> Self {
        WatchModel { answered: true, lost: self.lost && self.answered, ..self }
    }

    /// What the user is told when any line has arrived.
    pub open spec fn greeting(self) -> Seq<OutputModel> {
        if self.lost && !self.answered {
            seq![OutputModel::Message("Reconnected to the host"@)]
        } else {
            Seq::empty()
        }
    }

    /// What a line leads to.
    pub open spec fn after_line(
        self,
        line: Seq<char>,
        hostname: Seq<char>,
        now: u64,
    ) -> StepModel {
        match record::record_of(line) {
            Some(record) => {
                let step = self.met().after_record(record, hostname, now);
                StepModel { outputs: self.greeting() + step.outputs, ..step }
            },
            None => StepModel {
                watch: self.met(),
                outputs: self.greeting(),
                next: NextModel::Failed(ErrorModel::ActivationBadOutput { line }),
            },
        }
    }

    /// A step that shows nothing and leaves the watch as it is.
    pub open spec fn only(self, next: NextModel) -> StepModel {
        StepModel { watch: self, outputs: Seq::empty(), next }
    }

    /// What waiting for the next line leads to.
    ///
    /// A cut last line means that the connection dropped mid record.
    pub open spec fn after_read(
        self,
        read: ReadModel,
        hostname: Seq<char>,
        now: u64,
    ) -> StepModel {
        match read {
            ReadModel::Line { bytes, text } => if is_whole(bytes) {
                self.after_line(text::without_final_newlines(text), hostname, now)
            } else {
                self.only(NextModel::Ended)
            },
            ReadModel::TimedOut => self.only(NextModel::Failed(ErrorModel::ActivationStepTimeout)),
            ReadModel::Failed(error) => self.only(NextModel::Failed(ErrorModel::IoError { error })),
        }
    }
}

/// Whether the bytes of a line end with a newline.
pub open spec fn is_whole(bytes: Seq<u8>) -> bool {
    bytes.len() > 0 && bytes.last() == 0x0a
}

/// The text of bytes that need not be UTF-8: what `String::from_utf8_lossy`
/// returns for them.
pub uninterp spec fn lossy_text(bytes: Seq<u8>) -> Seq<char>;

/// Decodes bytes with `String::from_utf8_lossy`.
///
/// The text depends on the bytes alone. Valid UTF-8 decodes to what it
/// encodes.
#[verifier::external_body]
fn decode_lossy(bytes: &Vec<u8>) -> (r: String)
    ensures
        r@ == lossy_text(bytes@),
        vstd::utf8::valid_utf8(bytes@) ==> r@ == vstd::utf8::decode_utf8(bytes@),
{
    String::from_utf8_lossy(bytes).into_owned()
}

impl Watch {
    /// Creates the watch of a unit.
    pub fn new(unit: String, now: u64) -> (r: Self)
        ensures
            r@ == WatchModel::new(unit@, now),
    {
        let r = Watch {
            unit,
            cursor: None,
            pending: Vec::new(),
            answered: false,
            seen: false,
            contact: now,
            lost: false,
            unreadable: None,
            journal_failed: false,
        };
        assert(r@ =~= WatchModel::new(unit@, now));
        r
    }

    /// Returns the remote command of a session.
    ///
    /// sh reads the script from stdin, so the login shell never parses it.
    pub fn argv(&self, start: Option<&[String]>) -> (r: Vec<String>)
        ensures
            list::texts(r@) == self@.argv(
                match start {
                    Some(command) => Some(list::texts(command@)),
                    None => None,
                },
            ),
    {
        let mut argv: Vec<String> = Vec::new();
        argv.push("sh".to_string());
        argv.push("-s".to_string());
        argv.push(self.unit.clone());
        argv.push(
            if start.is_some() {
                "1"
            } else {
                "0"
            }.to_string(),
        );
        argv.push(
            match &self.cursor {
                Some(cursor) => cursor.clone(),
                None => String::new(),
            },
        );
        match start {
            Some(command) => {
                let ghost front = list::texts(argv@);
                let ghost all = list::texts(command@);
                let mut i: usize = 0;
                while i < command.len()
                    invariant
                        i <= command.len(),
                        all == list::texts(command@),
                        list::texts(argv@) =~= front + all.take(i as int),
                    decreases command.len() - i,
                {
                    argv.push(command[i].clone());
                    i = i + 1;
                    assert(all[i - 1] == command@[i - 1]@);
                }
                assert(all.take(i as int) =~= all);
                assert(list::texts(argv@) =~= self@.argv(Some(all)));
            },
            None => {
                assert(list::texts(argv@) =~= self@.argv(None));
            },
        }
        argv
    }

    /// Returns how much of the window for reconnecting is left.
    pub fn left(&self, now: u64) -> (r: u64)
        ensures
            r == self@.left(now),
    {
        let silence: u64 = if now >= self.contact {
            now - self.contact
        } else {
            0
        };
        if silence <= ACTIVATION_RECONNECT_TIMEOUT {
            ACTIVATION_RECONNECT_TIMEOUT - silence
        } else {
            0
        }
    }

    /// Returns how long to wait for the next line of a session.
    pub fn limit(&self, now: u64) -> (r: u64)
        ensures
            r == self@.limit(now),
    {
        let left: u64 = self.left(now);
        if left < ACTIVATION_STEP_TIMEOUT {
            left
        } else {
            ACTIVATION_STEP_TIMEOUT
        }
    }

    /// Returns the error of a session that exited before the unit finished,
    /// given whether the session started the unit.
    pub fn ended(&self, exit: ExitStatus, start: bool, hostname: &str) -> (r: ColmenaError)
        ensures
            r@ == self@.ended(exit, start, hostname@),
    {
        if exit.success() {
            return ColmenaError::ActivationWatchEnded;
        }
        let error = ColmenaError::from(exit);
        assert(error@ == exit.error());

        // before the first record, only a lost connection can have started the unit
        let lost: bool = matches!(error, ColmenaError::ChildFailure { exit_code: 255, .. });
        if start && !self.answered && !lost {
            return ColmenaError::ActivationStartFailed {
                hostname: hostname.to_string(),
                unit: self.unit.clone(),
                source: Box::new(error),
            };
        }
        error
    }

    /// Takes in a status record and returns the outcome of the activation,
    /// or `None` while it runs.
    pub fn observe(&mut self, state: ActivationState, hostname: &str, now: u64) -> (r: Option<
        ColmenaResult<()>,
    >)
        ensures
            final(self)@ == old(self)@.observed(state@, now),
            r is Some == final(self)@.outcome(state@, hostname@) is Some,
            r matches Some(o) ==> final(self)@.outcome(state@, hostname@) == Some(
                error::outcome(o),
            ),
    {
        self.seen = self.seen || !matches!(state, ActivationState::NotFound);
        self.contact = now;

        let hostname: String = hostname.to_string();
        let unit: String = self.unit.clone();

        match state {
            ActivationState::Running => None,
            ActivationState::Succeeded => Some(Ok(())),
            ActivationState::NotFound => Some(
                Err(
                    if self.seen {
                        ColmenaError::ActivationUnitVanished { hostname, unit }
                    } else {
                        ColmenaError::ActivationUnitNotFound { hostname, unit }
                    },
                ),
            ),
            ActivationState::Failed { result, exit } => Some(
                Err(ColmenaError::ActivationFailed { hostname, unit, result, exit }),
            ),
        }
    }

    /// Forgets what belongs to the last session.
    pub fn begin(&mut self)
        ensures
            final(self)@ == old(self)@.begun(),
    {
        self.unreadable = None;
        self.pending = Vec::new();
        self.answered = false;
        assert(self@ =~= old(self)@.begun());
    }

    /// Takes in a record of a session.
    fn take_record(&mut self, record: Record, hostname: &str, now: u64) -> (r: Step)
        ensures
            (StepModel { watch: final(self)@, outputs: outputs(r.outputs@), next: r.next@ })
                == old(self)@.after_record(record@, hostname@, now),
    {
        let mut out: Vec<Output> = Vec::new();
        let mut next = Next::Continue;
        let ghost before = self@;
        match record {
            // a drop before the cursor makes the next session send the lines again
            Record::Log(line) => {
                self.pending.push(line);
            },
            Record::Cursor(cursor) => {
                self.cursor = Some(cursor);
                let lines: Vec<String> = list::copied(&self.pending);
                self.pending = Vec::new();
                let mut i: usize = 0;
                while i < lines.len()
                    invariant
                        i <= lines.len(),
                        outputs(out@) =~= as_stderr(list::texts(lines@)).take(i as int),
                    decreases lines.len() - i,
                {
                    let ghost shown = out@;
                    out.push(Output::Stderr(lines[i].clone()));
                    i = i + 1;
                    assert(outputs(out@) =~= outputs(shown).push(
                        OutputModel::Stderr(lines@[i - 1]@),
                    ));
                    assert(as_stderr(list::texts(lines@)).take(i as int) =~= as_stderr(
                        list::texts(lines@),
                    ).take(i - 1).push(OutputModel::Stderr(lines@[i - 1]@)));
                }
                assert(outputs(out@) =~= as_stderr(before.pending));
                assert(self@.pending =~= Seq::empty());
            },
            Record::JournalFailed(status) => {
                if !self.journal_failed {
                    self.journal_failed = true;
                    out.push(
                        Output::Message(
                            "Could not read the journal of unit ".to_string().concat(
                                self.unit.as_str(),
                            ).concat(", journalctl exited with ").concat(status.as_str()),
                        ),
                    );
                }
            },
            Record::Unreadable(reason) => {
                self.unreadable = Some(reason);
            },
            // the final status follows every line and cursor of the unit
            Record::Status(state) => {
                if let Some(outcome) = self.observe(state, hostname, now) {
                    next = Next::Finished(outcome);
                }
            },
        }
        let r = Step { outputs: out, next };
        assert((StepModel { watch: self@, outputs: outputs(r.outputs@), next: r.next@ })
            =~= before.after_record(record@, hostname@, now));
        r
    }

    /// Takes in a line of a session, without its newline.
    pub fn take_line(&mut self, line: &str, hostname: &str, now: u64) -> (r: Step)
        ensures
            (StepModel { watch: final(self)@, outputs: outputs(r.outputs@), next: r.next@ })
                == old(self)@.after_line(line@, hostname@, now),
    {
        let mut out: Vec<Output> = Vec::new();
        let ghost before = self@;

        // the first record of a session ends an outage
        if !self.answered {
            self.answered = true;
            if self.lost {
                self.lost = false;
                out.push(Output::Message("Reconnected to the host".to_string()));
            }
        }
        assert(self@ =~= before.met());
        assert(outputs(out@) =~= before.greeting());

        match Record::parse(line) {
            Ok(record) => {
                let mut step = self.take_record(record, hostname, now);
                let ghost more = step.outputs@;
                let ghost first = out@;
                out.append(&mut step.outputs);
                assert(outputs(first + more) =~= outputs(first) + outputs(more));
                Step { outputs: out, next: step.next }
            },
            Err(e) => Step { outputs: out, next: Next::Failed(e) },
        }
    }

    /// Takes in what came of waiting for the next line of a session, and
    /// decides how the session goes on.
    ///
    /// A cut last line means that the connection dropped mid record. Journal
    /// lines are bytes, and need not be UTF-8.
    pub fn follow(&mut self, read: Read, hostname: &str, now: u64) -> (r: Step)
        ensures
            (StepModel { watch: final(self)@, outputs: outputs(r.outputs@), next: r.next@ })
                == old(self)@.after_read(read@, hostname@, now),
            read matches Read::Line(bytes) ==> vstd::utf8::valid_utf8(bytes@) ==> (StepModel {
                watch: final(self)@,
                outputs: outputs(r.outputs@),
                next: r.next@,
            }) == old(self)@.after_read(
                ReadModel::Line { bytes: bytes@, text: vstd::utf8::decode_utf8(bytes@) },
                hostname@,
                now,
            ),
    {
        let none: Vec<Output> = Vec::new();
        assert(outputs(none@) =~= Seq::empty());
        let bytes: Vec<u8> = match read {
            Read::Line(bytes) => bytes,
            Read::TimedOut => {
                return Step {
                    outputs: none,
                    next: Next::Failed(ColmenaError::ActivationStepTimeout),
                };
            },
            Read::Failed(error) => {
                return Step { outputs: none, next: Next::Failed(ColmenaError::from(error)) };
            },
        };
        if bytes.len() == 0 || bytes[bytes.len() - 1] != 0x0a {
            return Step { outputs: none, next: Next::Ended };
        }
        let text: String = decode_lossy(&bytes);
        let line: String = text::trim_final_newlines(text.as_str());
        self.take_line(line.as_str(), hostname, now)
    }
}

// Sessions

/// What the lines of a session lead to, each with the time of its arrival.
/// The session takes in no line after one that ends it.
pub open spec fn session(
    watch: WatchModel,
    lines: Seq<(Seq<char>, u64)>,
    hostname: Seq<char>,
) -> StepModel
    decreases lines.len(),
{
    if lines.len() == 0 {
        watch.step(Seq::empty())
    } else {
        let before = session(watch, lines.drop_last(), hostname);
        if before.next is Continue {
            let step = before.watch.after_line(lines.last().0, hostname, lines.last().1);
            StepModel { outputs: before.outputs + step.outputs, ..step }
        } else {
            before
        }
    }
}

/// Whether a session takes in every one of the lines.
pub open spec fn takes_all(
    watch: WatchModel,
    lines: Seq<(Seq<char>, u64)>,
    hostname: Seq<char>,
) -> bool {
    lines.len() > 0 ==> session(watch, lines.drop_last(), hostname).next is Continue
}

/// A session that takes in every line also takes in every one but the last.
proof fn lemma_takes_front(
    watch: WatchModel,
    lines: Seq<(Seq<char>, u64)>,
    hostname: Seq<char>,
)
    requires
        lines.len() > 0,
        takes_all(watch, lines, hostname),
    ensures
        takes_all(watch, lines.drop_last(), hostname),
{
}

/// The lines that the outputs print as error output of the host.
pub open spec fn printed(outputs: Seq<OutputModel>) -> Seq<Seq<char>>
    decreases outputs.len(),
{
    if outputs.len() == 0 {
        Seq::empty()
    } else {
        match outputs.last() {
            OutputModel::Stderr(line) => printed(outputs.drop_last()).push(line),
            OutputModel::Message(_) => printed(outputs.drop_last()),
        }
    }
}

/// The journal lines among the lines of a session.
pub open spec fn journal_lines(lines: Seq<(Seq<char>, u64)>) -> Seq<Seq<char>>
    decreases lines.len(),
{
    if lines.len() == 0 {
        Seq::empty()
    } else {
        let before = journal_lines(lines.drop_last());
        match record::record_of(lines.last().0) {
            Some(RecordModel::Log(line)) => before.push(line),
            _ => before,
        }
    }
}

/// Outputs print their lines in order.
pub proof fn lemma_printed_add(a: Seq<OutputModel>, b: Seq<OutputModel>)
    ensures
        printed(a + b) == printed(a) + printed(b),
    decreases b.len(),
{
    if b.len() == 0 {
        assert(a + b =~= a);
    } else {
        lemma_printed_add(a, b.drop_last());
        assert((a + b).drop_last() =~= a + b.drop_last());
        assert((a + b).last() == b.last());
        assert(printed(a + b) =~= printed(a) + printed(b));
    }
}

proof fn lemma_printed_stderr(lines: Seq<Seq<char>>)
    ensures
        printed(as_stderr(lines)) == lines,
    decreases lines.len(),
{
    if lines.len() > 0 {
        lemma_printed_stderr(lines.drop_last());
        assert(as_stderr(lines).drop_last() =~= as_stderr(lines.drop_last()));
        assert(as_stderr(lines).last() == OutputModel::Stderr(lines.last()));
        assert(lines.drop_last().push(lines.last()) =~= lines);
    } else {
        assert(printed(as_stderr(lines)) =~= lines);
    }
}

/// What one line prints, and what it leaves waiting.
pub proof fn lemma_line_keeps_journal(
    watch: WatchModel,
    line: Seq<char>,
    hostname: Seq<char>,
    now: u64,
)
    ensures
        ({
            let step = watch.after_line(line, hostname, now);
            match record::record_of(line) {
                Some(RecordModel::Log(text)) => printed(step.outputs) == Seq::<Seq<char>>::empty()
                    && step.watch.pending == watch.pending.push(text) && step.watch.cursor
                    == watch.cursor,
                Some(RecordModel::Cursor(cursor)) => printed(step.outputs) == watch.pending
                    && step.watch.pending == Seq::<Seq<char>>::empty() && step.watch.cursor
                    == Some(cursor),
                _ => printed(step.outputs) == Seq::<Seq<char>>::empty() && step.watch.pending
                    == watch.pending && step.watch.cursor == watch.cursor,
            }
        }),
{
    let none = Seq::<OutputModel>::empty();
    assert(printed(none) =~= Seq::empty());
    let step = watch.after_line(line, hostname, now);
    assert(printed(watch.greeting()) =~= Seq::empty()) by {
        if watch.lost && !watch.answered {
            assert(watch.greeting().drop_last() =~= none);
        }
    }
    match record::record_of(line) {
        Some(record) => {
            let more = watch.met().after_record(record, hostname, now).outputs;
            lemma_printed_add(watch.greeting(), more);
            lemma_printed_stderr(watch.pending);
            if record is JournalFailed && !watch.journal_failed {
                assert(more.drop_last() =~= none);
                assert(printed(more) =~= Seq::empty());
            }
            assert(Seq::<Seq<char>>::empty() + printed(more) =~= printed(more));
        },
        None => {},
    }
}

/// A session prints each journal line it took in once and in order, or still
/// holds it back for the cursor after it.
pub proof fn law_session_prints_or_holds_each_line(
    watch: WatchModel,
    lines: Seq<(Seq<char>, u64)>,
    hostname: Seq<char>,
)
    requires
        takes_all(watch, lines, hostname),
    ensures
        ({
            let end = session(watch, lines, hostname);
            printed(end.outputs) + end.watch.pending == watch.pending + journal_lines(lines)
        }),
    decreases lines.len(),
{
    let end = session(watch, lines, hostname);
    if lines.len() == 0 {
        assert(printed(end.outputs) =~= Seq::empty());
        assert(printed(end.outputs) + end.watch.pending =~= watch.pending + journal_lines(lines));
    } else {
        let front = lines.drop_last();
        let before = session(watch, front, hostname);
        lemma_takes_front(watch, lines, hostname);
        law_session_prints_or_holds_each_line(watch, front, hostname);
        let (line, now) = lines.last();
        lemma_line_keeps_journal(before.watch, line, hostname, now);
        let step = before.watch.after_line(line, hostname, now);
        lemma_printed_add(before.outputs, step.outputs);
        match record::record_of(line) {
            Some(RecordModel::Log(text)) => {
                assert(printed(end.outputs) + end.watch.pending =~= (printed(before.outputs)
                    + before.watch.pending).push(text));
                assert(watch.pending + journal_lines(lines) =~= (watch.pending + journal_lines(
                    front,
                )).push(text));
            },
            _ => {
                assert(printed(end.outputs) + end.watch.pending =~= printed(before.outputs)
                    + before.watch.pending);
            },
        }
    }
}

/// Where a cursor stands in the journal. Before the first one, streaming
/// starts at the front.
pub open spec fn position(cursor: Option<Seq<char>>, at: spec_fn(Seq<char>) -> int) -> int {
    match cursor {
        Some(cursor) => at(cursor),
        None => 0,
    }
}

/// Whether the lines of a session stream the journal of the unit from a
/// position on: its lines in order, and cursors that stand where they are
/// sent.
pub open spec fn streams(
    lines: Seq<(Seq<char>, u64)>,
    journal: Seq<Seq<char>>,
    at: spec_fn(Seq<char>) -> int,
    from: int,
) -> bool
    decreases lines.len(),
{
    lines.len() > 0 ==> {
        let front = lines.drop_last();
        let n = from + journal_lines(front).len();
        &&& streams(front, journal, at, from)
        &&& match record::record_of(lines.last().0) {
            Some(RecordModel::Log(line)) => n < journal.len() && journal[n] == line,
            Some(RecordModel::Cursor(cursor)) => at(cursor) == n,
            _ => true,
        }
    }
}

/// A session that streams the journal from where the watch stands prints
/// exactly the lines up to the new cursor, wherever the connection drops. The
/// lines after it wait.
pub proof fn law_session_prints_up_to_its_cursor(
    watch: WatchModel,
    lines: Seq<(Seq<char>, u64)>,
    hostname: Seq<char>,
    journal: Seq<Seq<char>>,
    at: spec_fn(Seq<char>) -> int,
)
    requires
        watch.pending.len() == 0,
        0 <= position(watch.cursor, at) <= journal.len(),
        streams(lines, journal, at, position(watch.cursor, at)),
        takes_all(watch, lines, hostname),
    ensures
        ({
            let from = position(watch.cursor, at);
            let end = session(watch, lines, hostname);
            let to = position(end.watch.cursor, at);
            let sent = from + journal_lines(lines).len();
            &&& from <= to <= sent <= journal.len()
            &&& printed(end.outputs) == journal.subrange(from, to)
            &&& end.watch.pending == journal.subrange(to, sent)
        }),
    decreases lines.len(),
{
    let from = position(watch.cursor, at);
    let end = session(watch, lines, hostname);
    if lines.len() == 0 {
        assert(printed(end.outputs) =~= journal.subrange(from, from));
        assert(end.watch.pending =~= journal.subrange(from, from));
    } else {
        let front = lines.drop_last();
        let before = session(watch, front, hostname);
        lemma_takes_front(watch, lines, hostname);
        law_session_prints_up_to_its_cursor(watch, front, hostname, journal, at);
        let (line, now) = lines.last();
        lemma_line_keeps_journal(before.watch, line, hostname, now);
        let step = before.watch.after_line(line, hostname, now);
        lemma_printed_add(before.outputs, step.outputs);
        let m = position(before.watch.cursor, at);
        let n = from + journal_lines(front).len();
        match record::record_of(line) {
            Some(RecordModel::Log(text)) => {
                assert(printed(end.outputs) =~= printed(before.outputs));
                assert(journal.subrange(m, n + 1) =~= journal.subrange(m, n).push(text));
            },
            Some(RecordModel::Cursor(cursor)) => {
                assert(printed(end.outputs) =~= journal.subrange(from, m) + journal.subrange(m, n));
                assert(journal.subrange(from, n) =~= journal.subrange(from, m) + journal.subrange(
                    m,
                    n,
                ));
                assert(end.watch.pending =~= journal.subrange(n, n));
            },
            _ => {
                assert(printed(end.outputs) =~= printed(before.outputs));
            },
        }
    }
}

/// Whether a line is a status record that shows the unit.
pub open spec fn shows_unit(line: Seq<char>) -> bool {
    match record::record_of(line) {
        Some(RecordModel::Status(state)) => !(state is NotFound),
        _ => false,
    }
}

/// A unit counts as seen exactly if it did before the session or a status
/// record of the session showed it, so a unit that is gone is told apart from
/// one that never was.
pub proof fn law_seen_is_what_records_showed(
    watch: WatchModel,
    lines: Seq<(Seq<char>, u64)>,
    hostname: Seq<char>,
)
    requires
        takes_all(watch, lines, hostname),
    ensures
        session(watch, lines, hostname).watch.seen <==> watch.seen || exists|i: int|
            0 <= i < lines.len() && shows_unit(#[trigger] lines[i].0),
    decreases lines.len(),
{
    if lines.len() > 0 {
        let front = lines.drop_last();
        lemma_takes_front(watch, lines, hostname);
        law_seen_is_what_records_showed(watch, front, hostname);
        if exists|i: int| 0 <= i < front.len() && shows_unit(#[trigger] front[i].0) {
            let i = choose|i: int| 0 <= i < front.len() && shows_unit(#[trigger] front[i].0);
            assert(shows_unit(lines[i].0));
        }
        if exists|i: int| 0 <= i < lines.len() && shows_unit(#[trigger] lines[i].0) {
            let i = choose|i: int| 0 <= i < lines.len() && shows_unit(#[trigger] lines[i].0);
            if i < front.len() {
                assert(shows_unit(front[i].0));
            }
        }
        assert(lines[lines.len() - 1] == lines.last());
    }
}

/// When the last status record of a session arrived, or `before` if none did.
pub open spec fn last_status(lines: Seq<(Seq<char>, u64)>, before: u64) -> u64
    decreases lines.len(),
{
    if lines.len() == 0 {
        before
    } else {
        match record::record_of(lines.last().0) {
            Some(RecordModel::Status(_)) => lines.last().1,
            _ => last_status(lines.drop_last(), before),
        }
    }
}

/// The window for reconnecting starts at the last status record, whatever
/// else arrived since.
pub proof fn law_window_starts_at_the_last_status(
    watch: WatchModel,
    lines: Seq<(Seq<char>, u64)>,
    hostname: Seq<char>,
)
    requires
        takes_all(watch, lines, hostname),
    ensures
        session(watch, lines, hostname).watch.contact == last_status(lines, watch.contact),
    decreases lines.len(),
{
    if lines.len() > 0 {
        let front = lines.drop_last();
        lemma_takes_front(watch, lines, hostname);
        law_window_starts_at_the_last_status(watch, front, hostname);
    }
}

/// An activation finishes exactly with a status record of a unit that no
/// longer runs, and it succeeds exactly if that record says so.
pub proof fn law_last_status_decides(
    watch: WatchModel,
    line: Seq<char>,
    hostname: Seq<char>,
    now: u64,
)
    ensures
        ({
            let next = watch.after_line(line, hostname, now).next;
            match record::record_of(line) {
                Some(RecordModel::Status(state)) => if state is Running {
                    next is Continue
                } else {
                    next is Finished && (next->Finished_0 is Ok <==> state is Succeeded)
                },
                Some(_) => next is Continue,
                None => next is Failed,
            }
        }),
{
}

/// No wait for a line lasts longer than a step may, nor past the window for
/// reconnecting.
pub proof fn law_waits_end_with_the_window(watch: WatchModel, now: u64)
    ensures
        0 <= watch.limit(now) <= ACTIVATION_STEP_TIMEOUT,
        watch.silence(now) <= ACTIVATION_RECONNECT_TIMEOUT ==> watch.silence(now) + watch.limit(now)
            <= ACTIVATION_RECONNECT_TIMEOUT,
        watch.silence(now) >= ACTIVATION_RECONNECT_TIMEOUT <==> watch.limit(now) == 0,
{
}

/// Whether none of the texts holds a single quote or an exclamation mark.
pub open spec fn all_clean(list: Seq<Seq<char>>) -> bool {
    forall|i: int| 0 <= i < list.len() ==> !shell::has_quote_or_bang(#[trigger] list[i])
}

/// The remote command of a session needs no quote or exclamation mark
/// escaped, unless the unit, the cursor or the command to start holds one.
pub proof fn law_session_argv_needs_no_escapes(
    watch: WatchModel,
    start: Option<Seq<Seq<char>>>,
)
    requires
        !shell::has_quote_or_bang(watch.unit),
        watch.cursor is Some ==> !shell::has_quote_or_bang(watch.cursor->0),
        start is Some ==> all_clean(start->0),
    ensures
        all_clean(watch.argv(start)),
{
    reveal_strlit("sh");
    reveal_strlit("-s");
    reveal_strlit("0");
    reveal_strlit("1");
    let argv = watch.argv(start);
    assert forall|i: int| 0 <= i < argv.len() implies !shell::has_quote_or_bang(
        #[trigger] argv[i],
    ) by {
        if i >= 5 {
            assert(argv[i] == (start->0)[i - 5]);
        }
    }
}

/// The first line of a session ends an outage: the user is told, and contact
/// no longer counts as lost. No other line says anything of the kind. A record
/// then changes what it is about, and nothing else of the watch.
pub proof fn law_a_record_changes_what_it_is_about(
    watch: WatchModel,
    line: Seq<char>,
    hostname: Seq<char>,
    now: u64,
)
    ensures
        ({
            let step = watch.after_line(line, hostname, now);
            let heard = WatchModel { answered: true, lost: watch.lost && watch.answered, ..watch };
            let greeting = if watch.lost && !watch.answered {
                seq![OutputModel::Message("Reconnected to the host"@)]
            } else {
                Seq::empty()
            };
            match record::record_of(line) {
                Some(RecordModel::Log(text)) => {
                    &&& step.watch == (WatchModel { pending: watch.pending.push(text), ..heard })
                    &&& step.outputs == greeting
                    &&& step.next is Continue
                },
                Some(RecordModel::Cursor(cursor)) => {
                    &&& step.watch == (WatchModel {
                        cursor: Some(cursor),
                        pending: Seq::empty(),
                        ..heard
                    })
                    &&& step.outputs == greeting + Seq::new(
                        watch.pending.len(),
                        |i: int| OutputModel::Stderr(watch.pending[i]),
                    )
                    &&& step.next is Continue
                },
                Some(RecordModel::JournalFailed(status)) => {
                    &&& step.watch == (WatchModel { journal_failed: true, ..heard })
                    &&& watch.journal_failed ==> step.outputs == greeting
                    &&& !watch.journal_failed ==> step.outputs == greeting.push(
                        OutputModel::Message(
                            "Could not read the journal of unit "@ + watch.unit
                                + ", journalctl exited with "@ + status,
                        ),
                    )
                    &&& step.next is Continue
                },
                Some(RecordModel::Unreadable(reason)) => {
                    &&& step.watch == (WatchModel { unreadable: Some(reason), ..heard })
                    &&& step.outputs == greeting
                    &&& step.next is Continue
                },
                Some(RecordModel::Status(state)) => {
                    &&& step.watch == (WatchModel {
                        seen: watch.seen || !(state is NotFound),
                        contact: now,
                        ..heard
                    })
                    &&& step.outputs == greeting
                },
                None => {
                    &&& step.watch == heard
                    &&& step.outputs == greeting
                    &&& step.next == NextModel::Failed(ErrorModel::ActivationBadOutput { line })
                },
            }
        }),
{
    let step = watch.after_line(line, hostname, now);
    let greeting = watch.greeting();
    let none = Seq::<OutputModel>::empty();
    assert(greeting + none =~= greeting);
    if let Some(record) = record::record_of(line) {
        if let RecordModel::Cursor(_) = record {
            assert(as_stderr(watch.pending) =~= Seq::new(
                watch.pending.len(),
                |i: int| OutputModel::Stderr(watch.pending[i]),
            ));
        }
        if let RecordModel::JournalFailed(status) = record {
            let message = OutputModel::Message(
                "Could not read the journal of unit "@ + watch.unit + ", journalctl exited with "@
                    + status,
            );
            assert(greeting + seq![message] =~= greeting.push(message));
        }
    }
}

/// What a status says of the activation: it goes on while the unit runs, it
/// succeeded if the unit did, and it failed if the unit failed or is gone. A
/// unit that was seen before has vanished, and another one was never there.
pub proof fn law_a_status_tells_the_outcome(
    watch: WatchModel,
    line: Seq<char>,
    state: StateModel,
    hostname: Seq<char>,
    now: u64,
)
    requires
        record::record_of(line) == Some(RecordModel::Status(state)),
    ensures
        ({
            let next = watch.after_line(line, hostname, now).next;
            let unit = watch.unit;
            match state {
                StateModel::Running => next == NextModel::Continue,
                StateModel::Succeeded => next == NextModel::Finished(Ok(())),
                StateModel::NotFound => next == NextModel::Finished(
                    Err(
                        if watch.seen {
                            ErrorModel::ActivationUnitVanished { hostname, unit }
                        } else {
                            ErrorModel::ActivationUnitNotFound { hostname, unit }
                        },
                    ),
                ),
                StateModel::Failed { result, exit } => next == NextModel::Finished(
                    Err(ErrorModel::ActivationFailed { hostname, unit, result, exit }),
                ),
            }
        }),
        ({
            let after = watch.observed(state, now);
            &&& after == (WatchModel {
                seen: watch.seen || !(state is NotFound),
                contact: now,
                ..watch
            })
            &&& after.outcome(state, hostname) == match watch.after_line(line, hostname, now).next {
                NextModel::Finished(outcome) => Some(outcome),
                _ => None,
            }
        }),
{
}

/// Only a line that ends with a newline is taken in, without its newlines. One
/// that was cut ends the session, silence and a failure to read fail it, and
/// none of these three changes what is known.
pub proof fn law_only_whole_lines_are_taken_in(
    watch: WatchModel,
    read: ReadModel,
    hostname: Seq<char>,
    now: u64,
)
    ensures
        ({
            let step = watch.after_read(read, hostname, now);
            let unchanged = step.watch == watch && step.outputs.len() == 0;
            match read {
                ReadModel::Line { bytes, text } => if bytes.len() > 0 && bytes[bytes.len() - 1]
                    == 10 {
                    step == watch.after_line(
                        text::without_final_newlines(text),
                        hostname,
                        now,
                    )
                } else {
                    unchanged && step.next == NextModel::Ended
                },
                ReadModel::TimedOut => unchanged && step.next == NextModel::Failed(
                    ErrorModel::ActivationStepTimeout,
                ),
                ReadModel::Failed(error) => unchanged && step.next == NextModel::Failed(
                    ErrorModel::IoError { error },
                ),
            }
        }),
{
}

/// A new session forgets what belongs to the one before it: its waiting lines,
/// that it answered, and why the unit could not be read. It keeps everything
/// else, and a new watch knows nothing but its unit.
pub proof fn law_a_session_starts_afresh(watch: WatchModel, unit: Seq<char>, now: u64)
    ensures
        ({
            let begun = watch.begun();
            &&& begun.pending.len() == 0
            &&& !begun.answered
            &&& begun.unreadable is None
            &&& begun.unit == watch.unit
            &&& begun.cursor == watch.cursor
            &&& begun.seen == watch.seen
            &&& begun.contact == watch.contact
            &&& begun.lost == watch.lost
            &&& begun.journal_failed == watch.journal_failed
        }),
        ({
            let new = WatchModel::new(unit, now);
            &&& new.begun() == new
            &&& new.unit == unit
            &&& new.contact == now
            &&& new.cursor is None
            &&& !new.seen
            &&& !new.lost
            &&& !new.journal_failed
        }),
{
}

/// The remote command of a session names the unit, whether to start it, the
/// cursor to resume after and, to start the unit, its command.
pub proof fn law_session_argv_names_unit_and_cursor(
    watch: WatchModel,
    command: Seq<Seq<char>>,
    cursor: Seq<char>,
)
    ensures
        ({
            let resumed = WatchModel { cursor: Some(cursor), ..watch };
            let first = WatchModel { cursor: None, ..watch };
            &&& resumed.argv(None) == seq!["sh"@, "-s"@, watch.unit, "0"@, cursor]
            &&& resumed.argv(Some(command)) == seq!["sh"@, "-s"@, watch.unit, "1"@, cursor]
                + command
            &&& first.argv(None) == seq!["sh"@, "-s"@, watch.unit, "0"@, Seq::empty()]
            &&& first.argv(Some(command)) == seq!["sh"@, "-s"@, watch.unit, "1"@, Seq::empty()]
                + command
        }),
{
}

/// How an ended session is told: one that exited with 0 just ended, and one
/// that failed is a failed child. Only a session that was to start the unit,
/// brought no record and did not lose its connection failed to start it.
pub proof fn law_an_ended_session_tells_how(
    watch: WatchModel,
    code: i32,
    start: bool,
    hostname: Seq<char>,
)
    ensures
        ({
            let exited = watch.ended(ExitStatus::Code(code), start, hostname);
            let killed = watch.ended(ExitStatus::Signal(code), start, hostname);
            let unit = watch.unit;
            let failure = ErrorModel::ChildFailure { exit_code: code };
            let kill = ErrorModel::ChildKilled { signal: code };
            &&& code == 0 ==> exited == ErrorModel::ActivationWatchEnded
            &&& code == 255 ==> exited == failure
            &&& code != 0 && code != 255 ==> exited == if start && !watch.answered {
                ErrorModel::ActivationStartFailed { hostname, unit, source: Box::new(failure) }
            } else {
                failure
            }
            &&& killed == if start && !watch.answered {
                ErrorModel::ActivationStartFailed { hostname, unit, source: Box::new(kill) }
            } else {
                kill
            }
        }),
{
}

/// The window for reconnecting is 60 seconds from the last status record, and
/// a line is waited for until it closes, but for 30 seconds at most.
pub proof fn law_the_window_lasts_a_minute(watch: WatchModel, now: u64)
    ensures
        ({
            let passed = if watch.contact <= now {
                now - watch.contact
            } else {
                0
            };
            &&& passed <= 60_000_000_000 ==> watch.left(now) == 60_000_000_000 - passed
            &&& passed > 60_000_000_000 ==> watch.left(now) == 0
            &&& passed <= 30_000_000_000 ==> watch.limit(now) == 30_000_000_000
            &&& passed > 30_000_000_000 ==> watch.limit(now) == watch.left(now)
        }),
{
}

} // verus!

//! The records of the activation watch.
//!
//! The watch runs on the host and prints one record per line: a tag, a space
//! and the contents.

use vstd::prelude::*;

use crate::error::{ColmenaError, ColmenaResult, ErrorModel, UnitExit};
use crate::list;
use crate::number;
use crate::text;

verus! {

/// The state of a transient activation unit.
#[derive(Debug, PartialEq, Eq)]
pub enum ActivationState {
    Running,
    Succeeded,
    NotFound,
    Failed { result: String, exit: Option<UnitExit> },
}

/// What the state of a unit holds.
pub enum StateModel {
    Running,
    Succeeded,
    NotFound,
    Failed { result: Seq<char>, exit: Option<UnitExit> },
}

impl View for ActivationState {
    type V = StateModel;

    open spec fn view(&self) -> StateModel {
        match self {
            ActivationState::Running => StateModel::Running,
            ActivationState::Succeeded => StateModel::Succeeded,
            ActivationState::NotFound => StateModel::NotFound,
            ActivationState::Failed { result, exit } => StateModel::Failed {
                result: result@,
                exit: *exit,
            },
        }
    }
}

/// The value in a `Key=Value` word, if it is the property `key`.
pub open spec fn value_of(word: Seq<char>, key: Seq<char>) -> Option<Seq<char>> {
    match text::cut(word, '=') {
        Some((name, value)) => if name == key {
            Some(value)
        } else {
            None
        },
        None => None,
    }
}

/// The value of the property `key` in a list of `Key=Value` words. The last
/// one counts.
pub open spec fn property(words: Seq<Seq<char>>, key: Seq<char>) -> Option<Seq<char>>
    decreases words.len(),
{
    if words.len() == 0 {
        None
    } else if value_of(words.last(), key) is Some {
        value_of(words.last(), key)
    } else {
        property(words.drop_last(), key)
    }
}

/// The number in the property `key`.
pub open spec fn number_property(words: Seq<Seq<char>>, key: Seq<char>) -> Option<i32> {
    match property(words, key) {
        Some(value) => number::i32_value(value),
        None => None,
    }
}

/// How the main process of a unit ended, if it did: the code is CLD_EXITED
/// (1), CLD_KILLED (2) or CLD_DUMPED (3) once it ended.
pub open spec fn main_exit(code: i32, status: i32) -> Option<UnitExit> {
    if code == 0 {
        None
    } else if code == 1 {
        Some(UnitExit::Status(status))
    } else {
        Some(UnitExit::Signal(status))
    }
}

/// The state of a unit with the given properties.
pub open spec fn unit_state(
    load: Seq<char>,
    active: Seq<char>,
    result: Seq<char>,
    exit: Option<UnitExit>,
) -> StateModel {
    if load == "not-found"@ {
        StateModel::NotFound
    } else if exit == Some(UnitExit::Status(0)) && result == "success"@ {
        StateModel::Succeeded
    } else if exit is None && active != "failed"@ {
        StateModel::Running
    } else {
        StateModel::Failed { result, exit }
    }
}

/// The state that the properties of a status record stand for.
pub open spec fn state_of(properties: Seq<char>) -> Option<StateModel> {
    let words = text::words_of(properties);
    match (property(words, "LoadState"@), property(words, "ActiveState"@), property(
        words,
        "Result"@,
    ), number_property(words, "ExecMainStatus"@), number_property(words, "ExecMainCode"@)) {
        (Some(load), Some(active), Some(result), Some(status), Some(code)) => Some(
            unit_state(load, active, result, main_exit(code, status)),
        ),
        _ => None,
    }
}

/// Returns the value of the property `key` in a list of words.
fn get(words: &Vec<String>, key: &str) -> (r: Option<String>)
    ensures
        list::opt_text(r) == property(list::texts(words@), key@),
{
    let ghost all = list::texts(words@);
    let mut i: usize = words.len();
    assert(all.take(i as int) =~= all);
    while i > 0
        invariant
            i <= words.len(),
            all == list::texts(words@),
            property(all, key@) == property(all.take(i as int), key@),
        decreases i,
    {
        assert(all.take(i as int).last() == words@[i - 1]@);
        assert(all.take(i as int).drop_last() =~= all.take(i - 1));
        if let Some((name, value)) = text::split_once(words[i - 1].as_str(), '=') {
            if text::same_text(name.as_str(), key) {
                return Some(value);
            }
        }
        i = i - 1;
    }
    None
}

impl ActivationState {
    /// Parses the `Key=Value` properties of a status record.
    ///
    /// Only an exit with status 0 counts as a success. systemd also reports
    /// `Result=success` for a process killed by SIGTERM, SIGHUP, SIGINT or
    /// SIGPIPE.
    pub fn parse(properties: &str) -> (r: Option<Self>)
        ensures
            r is Some == state_of(properties@) is Some,
            r matches Some(state) ==> state_of(properties@) == Some(state@),
    {
        let words: Vec<String> = text::words(properties);
        let load: String = get(&words, "LoadState")?;
        let active: String = get(&words, "ActiveState")?;
        let result: String = get(&words, "Result")?;
        let status: i32 = number::parse_i32(get(&words, "ExecMainStatus")?.as_str())?;
        let code: i32 = number::parse_i32(get(&words, "ExecMainCode")?.as_str())?;

        let exit: Option<UnitExit> = match code {
            0 => None,
            1 => Some(UnitExit::Status(status)),
            _ => Some(UnitExit::Signal(status)),
        };

        Some(
            if text::same_text(load.as_str(), "not-found") {
                ActivationState::NotFound
            } else if matches!(exit, Some(UnitExit::Status(0))) && text::same_text(
                result.as_str(),
                "success",
            ) {
                ActivationState::Succeeded
            } else if matches!(exit, None) && !text::same_text(active.as_str(), "failed") {
                ActivationState::Running
            } else {
                ActivationState::Failed { result, exit }
            },
        )
    }
}

/// A line printed by the activation watch.
#[derive(Debug, PartialEq, Eq)]
pub enum Record {
    /// A line of the journal of the unit.
    Log(String),
    /// The journal position after the lines before it.
    Cursor(String),
    /// The status journalctl failed with.
    JournalFailed(String),
    /// Why systemctl failed to read the unit.
    Unreadable(String),
    /// The state of the unit.
    Status(ActivationState),
}

/// What a record holds.
pub enum RecordModel {
    Log(Seq<char>),
    Cursor(Seq<char>),
    JournalFailed(Seq<char>),
    Unreadable(Seq<char>),
    Status(StateModel),
}

impl View for Record {
    type V = RecordModel;

    open spec fn view(&self) -> RecordModel {
        match self {
            Record::Log(line) => RecordModel::Log(line@),
            Record::Cursor(cursor) => RecordModel::Cursor(cursor@),
            Record::JournalFailed(status) => RecordModel::JournalFailed(status@),
            Record::Unreadable(reason) => RecordModel::Unreadable(reason@),
            Record::Status(state) => RecordModel::Status(state@),
        }
    }
}

/// The tag and the contents of a line.
pub open spec fn tagged(line: Seq<char>) -> (Seq<char>, Seq<char>) {
    match text::cut(line, ' ') {
        Some(parts) => parts,
        None => (line, Seq::empty()),
    }
}

/// The record that a line stands for.
pub open spec fn record_of(line: Seq<char>) -> Option<RecordModel> {
    let (tag, rest) = tagged(line);
    if tag == "L"@ {
        Some(RecordModel::Log(rest))
    } else if tag == "C"@ {
        Some(RecordModel::Cursor(rest))
    } else if tag == "J"@ {
        Some(RecordModel::JournalFailed(rest))
    } else if tag == "W"@ {
        Some(RecordModel::Unreadable(rest))
    } else if tag == "S"@ {
        match state_of(rest) {
            Some(state) => Some(RecordModel::Status(state)),
            None => None,
        }
    } else {
        None
    }
}

impl Record {
    /// Parses a line of the activation watch.
    pub fn parse(line: &str) -> (r: ColmenaResult<Self>)
        ensures
            match r {
                Ok(record) => record_of(line@) == Some(record@),
                Err(e) => record_of(line@) is None && e@ == (ErrorModel::ActivationBadOutput {
                    line: line@,
                }),
            },
    {
        proof {
            reveal_strlit("L");
            reveal_strlit("C");
            reveal_strlit("J");
            reveal_strlit("W");
            reveal_strlit("S");
        }
        let (tag, rest) = match text::split_once(line, ' ') {
            Some(parts) => parts,
            None => (line.to_string(), String::new()),
        };
        assert(tagged(line@) == (tag@, rest@));
        let tag: &str = tag.as_str();
        if text::same_text(tag, "L") {
            Ok(Record::Log(rest))
        } else if text::same_text(tag, "C") {
            Ok(Record::Cursor(rest))
        } else if text::same_text(tag, "J") {
            Ok(Record::JournalFailed(rest))
        } else if text::same_text(tag, "W") {
            Ok(Record::Unreadable(rest))
        } else if text::same_text(tag, "S") {
            match ActivationState::parse(rest.as_str()) {
                Some(state) => Ok(Record::Status(state)),
                None => Err(ColmenaError::ActivationBadOutput { line: line.to_string() }),
            }
        } else {
            Err(ColmenaError::ActivationBadOutput { line: line.to_string() })
        }
    }
}

/// A unit counts as succeeded only if its main process exited with status 0
/// and systemd reports a success.
pub proof fn law_success_is_exit_status_zero(properties: Seq<char>)
    requires
        state_of(properties) == Some(StateModel::Succeeded),
    ensures
        ({
            let words = text::words_of(properties);
            &&& number_property(words, "ExecMainCode"@) == Some(1i32)
            &&& number_property(words, "ExecMainStatus"@) == Some(0i32)
            &&& property(words, "Result"@) == Some("success"@)
        }),
{
}

/// A loaded unit whose main process was killed counts as failed, whatever
/// result systemd reports.
pub proof fn law_killed_unit_failed(properties: Seq<char>)
    requires
        state_of(properties) is Some,
        property(text::words_of(properties), "LoadState"@) != Some("not-found"@),
        number_property(text::words_of(properties), "ExecMainCode"@)->0 != 0,
        number_property(text::words_of(properties), "ExecMainCode"@)->0 != 1,
    ensures
        state_of(properties)->0 is Failed,
{
}

proof fn lemma_tagged(tag: char, rest: Seq<char>)
    requires
        tag != ' ',
    ensures
        tagged(seq![tag, ' '] + rest) == (seq![tag], rest),
{
    let line = seq![tag, ' '] + rest;
    text::lemma_until_is(line, ' ', 1);
    assert(line.take(1) =~= seq![tag]);
    assert(line.skip(2) =~= rest);
}

/// A journal line is read back as it was printed, spaces included, and so
/// are a cursor, a journal failure and a reason.
pub proof fn law_contents_are_kept(rest: Seq<char>)
    ensures
        record_of(seq!['L', ' '] + rest) == Some(RecordModel::Log(rest)),
        record_of(seq!['C', ' '] + rest) == Some(RecordModel::Cursor(rest)),
        record_of(seq!['J', ' '] + rest) == Some(RecordModel::JournalFailed(rest)),
        record_of(seq!['W', ' '] + rest) == Some(RecordModel::Unreadable(rest)),
{
    reveal_strlit("L");
    reveal_strlit("C");
    reveal_strlit("J");
    reveal_strlit("W");
    assert("L"@ =~= seq!['L']);
    assert("C"@ =~= seq!['C']);
    assert("J"@ =~= seq!['J']);
    assert("W"@ =~= seq!['W']);
    assert("L"@[0] == 'L' && "C"@[0] == 'C' && "J"@[0] == 'J' && "W"@[0] == 'W');
    lemma_tagged('L', rest);
    lemma_tagged('C', rest);
    lemma_tagged('J', rest);
    lemma_tagged('W', rest);
}

/// Whether a text is one word.
pub open spec fn is_word(s: Seq<char>) -> bool {
    s.len() > 0 && forall|i: int| 0 <= i < s.len() ==> !text::is_space(#[trigger] s[i])
}

/// A `Key=Value` property.
pub open spec fn property_text(key: Seq<char>, value: Seq<char>) -> Seq<char> {
    key + seq!['='] + value
}

proof fn lemma_property_text(key: Seq<char>, value: Seq<char>)
    requires
        is_word(key),
        forall|i: int| 0 <= i < key.len() ==> #[trigger] key[i] != '=',
        forall|i: int| 0 <= i < value.len() ==> !text::is_space(#[trigger] value[i]),
    ensures
        is_word(property_text(key, value)),
        text::cut(property_text(key, value), '=') == Some((key, value)),
{
    let word = property_text(key, value);
    text::lemma_until_is(word, '=', key.len() as int);
    assert(word.take(key.len() as int) =~= key);
    assert(word.skip(key.len() as int + 1) =~= value);
    assert forall|i: int| 0 <= i < word.len() implies !text::is_space(#[trigger] word[i]) by {
        if i < key.len() {
            assert(word[i] == key[i]);
        } else if i > key.len() {
            assert(word[i] == value[i - key.len() - 1]);
        }
    }
}

/// The properties of a status record.
pub open spec fn properties_text(
    load: Seq<char>,
    active: Seq<char>,
    result: Seq<char>,
    code: i32,
    status: i32,
) -> Seq<char> {
    property_text("LoadState"@, load) + seq![' '] + (property_text("ActiveState"@, active)
        + seq![' '] + (property_text("Result"@, result) + seq![' '] + (property_text(
        "ExecMainCode"@,
        number::decimal(code as int),
    ) + seq![' '] + property_text("ExecMainStatus"@, number::decimal(status as int)))))
}

/// Whether a value of a property has no white space.
pub open spec fn is_value(s: Seq<char>) -> bool {
    forall|i: int| 0 <= i < s.len() ==> !text::is_space(#[trigger] s[i])
}

proof fn lemma_decimal_is_value(n: int)
    ensures
        is_value(number::decimal(n)),
{
    number::law_decimal_is_plain(n);
    let s = number::decimal(n);
    assert forall|i: int| 0 <= i < s.len() implies !text::is_space(#[trigger] s[i]) by {
        if n >= 0 {
            assert(number::is_digit(s[i]));
        } else if i > 0 {
            assert(number::is_digit(s.drop_first()[i - 1]));
        }
    }
}

/// A status record is read back as what the unit reported.
pub proof fn law_status_reads_back(
    load: Seq<char>,
    active: Seq<char>,
    result: Seq<char>,
    code: i32,
    status: i32,
)
    requires
        is_value(load),
        is_value(active),
        is_value(result),
    ensures
        state_of(properties_text(load, active, result, code, status)) == Some(
            unit_state(load, active, result, main_exit(code, status)),
        ),
{
    reveal_strlit("LoadState");
    reveal_strlit("ActiveState");
    reveal_strlit("Result");
    reveal_strlit("ExecMainCode");
    reveal_strlit("ExecMainStatus");
    let code_text = number::decimal(code as int);
    let status_text = number::decimal(status as int);
    lemma_decimal_is_value(code as int);
    lemma_decimal_is_value(status as int);
    number::law_decimal_reads_back(code);
    number::law_decimal_reads_back(status);
    lemma_property_text("LoadState"@, load);
    lemma_property_text("ActiveState"@, active);
    lemma_property_text("Result"@, result);
    lemma_property_text("ExecMainCode"@, code_text);
    lemma_property_text("ExecMainStatus"@, status_text);

    let w0 = property_text("LoadState"@, load);
    let w1 = property_text("ActiveState"@, active);
    let w2 = property_text("Result"@, result);
    let w3 = property_text("ExecMainCode"@, code_text);
    let w4 = property_text("ExecMainStatus"@, status_text);
    let l3 = w3 + seq![' '] + w4;
    let l2 = w2 + seq![' '] + l3;
    let l1 = w1 + seq![' '] + l2;
    text::law_white_space_separates_words(w4, ' ', Seq::empty());
    text::law_white_space_separates_words(w3, ' ', w4);
    text::law_white_space_separates_words(w2, ' ', l3);
    text::law_white_space_separates_words(w1, ' ', l2);
    text::law_white_space_separates_words(w0, ' ', l1);
    let words = text::words_of(properties_text(load, active, result, code, status));
    assert(words =~= seq![w0, w1, w2, w3, w4]);

    let p4 = words.drop_last();
    let p3 = p4.drop_last();
    let p2 = p3.drop_last();
    let p1 = p2.drop_last();
    assert(p4.last() == w3 && p3.last() == w2 && p2.last() == w1 && p1.last() == w0);
    assert("ExecMainStatus"@.len() == 14 && "ExecMainCode"@.len() == 12 && "Result"@.len() == 6
        && "ActiveState"@.len() == 11 && "LoadState"@.len() == 9);
    reveal_with_fuel(property, 6);
    assert(property(words, "ExecMainStatus"@) == Some(status_text));
    assert(property(words, "ExecMainCode"@) == Some(code_text));
    assert(property(words, "Result"@) == Some(result));
    assert(property(words, "ActiveState"@) == Some(active));
    assert(property(words, "LoadState"@) == Some(load));
}

/// A later property of the same key replaces an earlier one, and a property of
/// another key, or a word that is none, changes nothing.
pub proof fn law_the_last_property_counts(
    words: Seq<Seq<char>>,
    name: Seq<char>,
    value: Seq<char>,
    key: Seq<char>,
    word: Seq<char>,
)
    requires
        !name.contains('='),
        !word.contains('='),
    ensures
        property(words.push(name + seq!['='] + value), key) == if name == key {
            Some(value)
        } else {
            property(words, key)
        },
        property(words.push(word), key) == property(words, key),
        property(Seq::empty(), key) is None,
{
    text::law_cut_at_the_first_separator(name, '=', value);
    text::law_cut_at_the_first_separator(word, '=', value);
    assert(words.push(name + seq!['='] + value).drop_last() =~= words);
    assert(words.push(word).drop_last() =~= words);
}

/// Which state the properties of a unit stand for. A unit is gone exactly if
/// it is not found. It succeeded exactly if its process exited with status 0
/// and systemd says so, and it runs exactly if its process did not end and
/// systemd does not call it failed. Otherwise it failed, with the result of
/// systemd and the way its process ended. Without one of the properties there
/// is no state.
pub proof fn law_properties_decide_the_state(properties: Seq<char>)
    ensures
        ({
            let words = text::words_of(properties);
            let load = property(words, "LoadState"@);
            let active = property(words, "ActiveState"@);
            let result = property(words, "Result"@);
            let code = property(words, "ExecMainCode"@);
            let status = property(words, "ExecMainStatus"@);
            let known = load is Some && active is Some && result is Some && code is Some && status
                is Some && number::i32_value(code->0) is Some && number::i32_value(status->0)
                is Some;
            let c = number::i32_value(code->0)->0;
            let n = number::i32_value(status->0)->0;
            let loaded = load->0 != "not-found"@;
            &&& state_of(properties) is Some <==> known
            &&& known ==> {
                let state = state_of(properties)->0;
                &&& state is NotFound <==> !loaded
                &&& state is Succeeded <==> loaded && c == 1 && n == 0 && result->0 == "success"@
                &&& state is Running <==> loaded && c == 0 && active->0 != "failed"@
                &&& state matches StateModel::Failed { result: said, exit } ==> {
                    &&& said == result->0
                    &&& c == 0 ==> exit is None
                    &&& c == 1 ==> exit == Some(UnitExit::Status(n))
                    &&& c != 0 && c != 1 ==> exit == Some(UnitExit::Signal(n))
                }
            }
        }),
{
}

/// A line is read by the word before its first space. `S` is followed by the
/// properties of the unit, and a word that is no tag is no record.
pub proof fn law_tags_decide_the_record(tag: Seq<char>, rest: Seq<char>)
    requires
        !tag.contains(' '),
    ensures
        ({
            let line = tag + seq![' '] + rest;
            let known = tag == seq!['L'] || tag == seq!['C'] || tag == seq!['J'] || tag == seq![
                'W',
            ];
            &&& tag == seq!['S'] ==> record_of(line) == match state_of(rest) {
                Some(state) => Some(RecordModel::Status(state)),
                None => None,
            }
            &&& !known && tag != seq!['S'] ==> record_of(line) is None && record_of(tag) is None
            &&& known ==> record_of(line) is Some && !(record_of(line)->0 is Status)
            &&& known ==> record_of(tag) == record_of(tag + seq![' '])
            &&& tag == seq!['S'] ==> record_of(tag) == record_of(tag + seq![' '])
        }),
{
    reveal_strlit("L");
    reveal_strlit("C");
    reveal_strlit("J");
    reveal_strlit("W");
    reveal_strlit("S");
    assert("L"@ =~= seq!['L']);
    assert("C"@ =~= seq!['C']);
    assert("J"@ =~= seq!['J']);
    assert("W"@ =~= seq!['W']);
    assert("S"@ =~= seq!['S']);
    assert("L"@[0] == 'L' && "C"@[0] == 'C' && "J"@[0] == 'J' && "W"@[0] == 'W' && "S"@[0] == 'S');
    let none = Seq::<char>::empty();
    text::law_cut_at_the_first_separator(tag, ' ', rest);
    text::law_cut_at_the_first_separator(tag, ' ', none);
    assert(tag + seq![' '] + none =~= tag + seq![' ']);
}

} // verus!

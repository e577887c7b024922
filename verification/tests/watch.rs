use colmena::detached::{
    is_retryable, new_unit_name, stop_message, unit_name, Action, Detached, Event, Progress,
};
use colmena::error::{ColmenaError, ColmenaResult, ExitStatus, UnitExit, SECOND};
use colmena::record::{ActivationState, Record};
use colmena::watch::{Next, Output, Read, Watch, ACTIVATION_RECONNECT_TIMEOUT};

const NOW: u64 = 1_000 * SECOND;

fn watch() -> Watch {
    Watch::new("unit".to_string(), NOW)
}

fn state(properties: &str) -> ActivationState {
    ActivationState::parse(properties).unwrap()
}

#[test]
fn test_activation_state() {
    let failed = |result: &str, exit| ActivationState::Failed {
        result: result.to_string(),
        exit,
    };
    let cases = [
        (
            "active Result=success ExecMainCode=1 ExecMainStatus=0",
            ActivationState::Succeeded,
        ),
        (
            "failed Result=exit-code ExecMainCode=1 ExecMainStatus=4",
            failed("exit-code", Some(UnitExit::Status(4))),
        ),
        // a process left in the unit was killed after the main process exited
        (
            "failed Result=oom-kill ExecMainCode=1 ExecMainStatus=0",
            failed("oom-kill", Some(UnitExit::Status(0))),
        ),
        // systemd counts SIGTERM as a clean exit for Type=exec
        (
            "active Result=success ExecMainCode=2 ExecMainStatus=15",
            failed("success", Some(UnitExit::Signal(15))),
        ),
        // failed before the process started
        (
            "failed Result=resources ExecMainCode=0 ExecMainStatus=0",
            failed("resources", None),
        ),
        (
            "active Result=success ExecMainCode=0 ExecMainStatus=0",
            ActivationState::Running,
        ),
        // the start job still waits
        (
            "inactive Result=success ExecMainCode=0 ExecMainStatus=0",
            ActivationState::Running,
        ),
    ];

    for (properties, expected) in cases {
        let properties = format!("LoadState=loaded ActiveState={properties}");
        assert_eq!(expected, state(&properties), "{properties}");
    }

    let gone = "LoadState=not-found ActiveState=inactive Result=success ExecMainCode=0 ExecMainStatus=0";
    assert_eq!(ActivationState::NotFound, state(gone));
}

#[test]
fn activation_state_takes_the_last_property() {
    let twice = "LoadState=loaded Result=failed x ActiveState=active ExecMainCode=+1 ExecMainStatus=-0 Result=success";
    assert_eq!(ActivationState::Succeeded, state(twice));
    for bad in [
        "",
        "LoadState=loaded ActiveState=active Result=success ExecMainCode=1",
        "LoadState=loaded ActiveState=active Result=success ExecMainCode=x ExecMainStatus=0",
        "LoadState=loaded ActiveState=active Result=success ExecMainCode=1 ExecMainStatus=2147483648",
        "LoadState=loaded ActiveState=active Result=success ExecMainCode=1 ExecMainStatus=",
    ] {
        assert!(ActivationState::parse(bad).is_none(), "{bad}");
    }
}

#[test]
fn test_record_parse() {
    assert_eq!(
        Record::Log("two  words ".to_string()),
        Record::parse("L two  words ").unwrap()
    );
    assert_eq!(Record::Log(String::new()), Record::parse("L ").unwrap());
    assert_eq!(
        Record::Cursor("s=1;i=2".to_string()),
        Record::parse("C s=1;i=2").unwrap()
    );
    assert!(Record::parse("S LoadState=loaded").is_err());
    assert!(Record::parse("-- cursor: s=1").is_err());
}

#[test]
fn records_of_every_tag() {
    assert_eq!(Record::Log(String::new()), Record::parse("L").unwrap());
    assert_eq!(
        Record::JournalFailed("1".to_string()),
        Record::parse("J 1").unwrap()
    );
    assert_eq!(
        Record::Unreadable("no bus".to_string()),
        Record::parse("W no bus").unwrap()
    );
    let error = Record::parse("X y").unwrap_err();
    assert_eq!(
        error.display(),
        "Unexpected line from the activation watch: X y"
    );
}

#[test]
fn test_watch_tells_a_vanished_unit_from_a_missing_one() {
    let running =
        "LoadState=loaded ActiveState=active Result=success ExecMainCode=0 ExecMainStatus=0";
    let gone = "LoadState=not-found ActiveState=inactive Result=success ExecMainCode=0 ExecMainStatus=0";

    let mut missing = Watch::new("unit".to_string(), NOW);
    assert!(matches!(
        missing.observe(state(gone), "host", NOW),
        Some(Err(ColmenaError::ActivationUnitNotFound { .. }))
    ));

    let mut vanished = Watch::new("unit".to_string(), NOW);
    vanished.contact -= ACTIVATION_RECONNECT_TIMEOUT;
    assert!(vanished.observe(state(running), "host", NOW).is_none());
    assert!(NOW - vanished.contact < ACTIVATION_RECONNECT_TIMEOUT);
    assert!(matches!(
        vanished.observe(state(gone), "host", NOW),
        Some(Err(ColmenaError::ActivationUnitVanished { .. }))
    ));
}

#[test]
fn test_watch_argv_needs_no_escapes() {
    // sshd hands the command to the login shell, and nushell misreads the escapes of ' and !
    let mut watch = Watch::new("unit".to_string(), NOW);
    watch.cursor = Some("s=1;i=2".to_string());
    let start = [
        "/nix/store/aaaaaaaaaaaaaaaaaaaaaaaaaaaaaaaa-x/bin/switch-to-configuration".to_string(),
        "switch".to_string(),
    ];

    let argv = watch.argv(Some(&start));
    assert!(
        argv.iter().all(|arg| !arg.contains(['\'', '!'])),
        "{argv:?}"
    );
}

#[test]
fn watch_argv_names_the_cursor() {
    let mut watch = watch();
    assert_eq!(watch.argv(None), vec!["sh", "-s", "unit", "0", ""]);
    watch.cursor = Some("s=1".to_string());
    let start = ["run".to_string(), "switch".to_string()];
    assert_eq!(
        watch.argv(Some(&start)),
        vec!["sh", "-s", "unit", "1", "s=1", "run", "switch"]
    );
}

/// Runs a session on the given output of the watch, and returns what it
/// shows and how it ends.
fn run(watch: &mut Watch, records: &[u8]) -> (Vec<Output>, Next) {
    let mut shown = Vec::new();
    let mut rest = records;
    watch.begin();
    loop {
        let end = rest
            .iter()
            .position(|byte| *byte == b'\n')
            .map_or(rest.len(), |newline| newline + 1);
        let (line, more) = rest.split_at(end);
        rest = more;
        let step = watch.follow(Read::Line(line.to_vec()), "host", NOW);
        shown.extend(step.outputs);
        match step.next {
            Next::Continue => {}
            next => return (shown, next),
        }
    }
}

fn follow(watch: &mut Watch, records: &[u8]) -> Option<ColmenaResult<()>> {
    match run(watch, records).1 {
        Next::Ended => None,
        Next::Finished(outcome) => Some(outcome),
        next => panic!("{next:?}"),
    }
}

#[test]
fn test_follow_holds_lines_until_their_cursor() {
    let mut watch = Watch::new("unit".to_string(), NOW);

    assert!(follow(&mut watch, b"L one\nC s=1\nL two\n").is_none());
    assert_eq!(Some("s=1"), watch.cursor.as_deref());
    assert_eq!(["two"], watch.pending.as_slice());
}

#[test]
fn test_follow_starts_each_session_afresh() {
    let mut watch = Watch::new("unit".to_string(), NOW);
    watch.lost = true;
    watch.unreadable = Some("bus".to_string());

    // the first record of a session ends an outage
    assert!(follow(&mut watch, b"L one\n").is_none());
    assert!(!watch.lost);
    assert_eq!(None, watch.unreadable);

    // a session that dropped before the cursor sends its lines again
    watch.lost = true;
    assert!(follow(&mut watch, b"L one\n").is_none());
    assert!(!watch.lost);
    assert_eq!(["one"], watch.pending.as_slice());
}

#[test]
fn test_follow_ends_at_a_cut_record() {
    // the connection dropped in the middle of the record
    let mut watch = Watch::new("unit".to_string(), NOW);

    assert!(follow(&mut watch, b"S LoadState=loaded ActiveSt").is_none());
    assert!(!watch.answered);
}

#[test]
fn test_first_session_that_fails_before_a_record() {
    let watch = Watch::new("unit".to_string(), NOW);
    let ended = |code: i32| watch.ended(ExitStatus::Code(code), true, "host");

    // ssh exits 255 when the connection drops, possibly after systemd-run
    assert!(matches!(
        ended(255),
        ColmenaError::ChildFailure { exit_code: 255, .. }
    ));
    assert!(matches!(
        ended(1),
        ColmenaError::ActivationStartFailed { .. }
    ));
    assert!(matches!(ended(0), ColmenaError::ActivationWatchEnded));

    // a later session, or one that answered, did not start the unit
    let mut answered = Watch::new("unit".to_string(), NOW);
    answered.answered = true;
    for (watch, start) in [(&watch, false), (&answered, true)] {
        assert!(matches!(
            watch.ended(ExitStatus::Code(1), start, "host"),
            ColmenaError::ChildFailure { exit_code: 1, .. }
        ));
    }
}

#[test]
fn killed_sessions() {
    let watch = watch();
    assert!(matches!(
        watch.ended(ExitStatus::Signal(9), false, "host"),
        ColmenaError::ChildKilled { signal: 9, .. }
    ));
    assert_eq!(
        watch.ended(ExitStatus::Signal(9), true, "host").display(),
        "Could not start activation unit unit on host host (Child process was killed by signal 9), \
         set deployment.detachedActivation = false to activate in the SSH session"
    );
}

#[test]
fn sessions_print_the_journal_once() {
    let mut watch = watch();
    let stderr = |line: &str| Output::Stderr(line.to_string());

    // the second session resumes after the cursor of the first
    let (shown, _) = run(&mut watch, b"L one\nL two\nC c2\nL three\n");
    assert_eq!(shown, vec![stderr("one"), stderr("two")]);
    watch.lost = true;
    let (shown, next) = run(
        &mut watch,
        b"L three\nC c3\nS LoadState=loaded ActiveState=active Result=success ExecMainCode=1 ExecMainStatus=0\n",
    );
    assert_eq!(
        shown,
        vec![
            Output::Message("Reconnected to the host".to_string()),
            stderr("three")
        ]
    );
    assert!(matches!(next, Next::Finished(Ok(()))));
    assert_eq!(watch.cursor.as_deref(), Some("c3"));
    assert!(watch.seen);
}

#[test]
fn journal_bytes_need_not_be_utf8() {
    let mut watch = watch();
    let (shown, _) = run(&mut watch, b"L a\xffb\xc3\xa9\nC c\n");
    assert_eq!(shown, vec![Output::Stderr("a\u{fffd}b\u{e9}".to_string())]);
}

#[test]
fn journal_failure_is_reported_once() {
    let mut watch = watch();
    let (shown, _) = run(&mut watch, b"J 1\nJ 1\nW no bus\n");
    assert_eq!(
        shown,
        vec![Output::Message(
            "Could not read the journal of unit unit, journalctl exited with 1".to_string()
        )]
    );
    assert_eq!(watch.unreadable.as_deref(), Some("no bus"));

    // nor does a later session report it again
    let (shown, _) = run(&mut watch, b"J 1\n");
    assert!(shown.is_empty());
}

#[test]
fn bad_lines_and_timeouts_fail_the_session() {
    let mut watch = watch();
    watch.lost = true;
    let (shown, next) = run(&mut watch, b"nonsense\n");
    assert_eq!(
        shown,
        vec![Output::Message("Reconnected to the host".to_string())]
    );
    assert!(matches!(
        next,
        Next::Failed(ColmenaError::ActivationBadOutput { line }) if line == "nonsense"
    ));

    let step = watch.follow(Read::TimedOut, "host", NOW);
    assert!(matches!(
        step.next,
        Next::Failed(ColmenaError::ActivationStepTimeout)
    ));
    let error = std::io::Error::from(std::io::ErrorKind::BrokenPipe);
    let step = watch.follow(Read::Failed(error), "host", NOW);
    assert!(matches!(
        step.next,
        Next::Failed(ColmenaError::IoError { .. })
    ));
}

#[test]
fn failed_units_name_the_result() {
    let mut watch = watch();
    let outcome = follow(
        &mut watch,
        b"S LoadState=loaded ActiveState=failed Result=exit-code ExecMainCode=1 ExecMainStatus=4\n",
    );
    assert_eq!(
        outcome.unwrap().unwrap_err().display(),
        "Activation unit unit on host host failed with result exit-code, exit status 4"
    );
    let outcome = follow(
        &mut watch,
        b"S LoadState=loaded ActiveState=failed Result=signal ExecMainCode=2 ExecMainStatus=9\n",
    );
    assert_eq!(
        outcome.unwrap().unwrap_err().display(),
        "Activation unit unit on host host failed with result signal, killed by signal 9"
    );
}

#[test]
fn waits_end_with_the_window() {
    let watch = watch();
    assert_eq!(watch.limit(NOW), 30 * SECOND);
    assert_eq!(watch.limit(NOW + 29 * SECOND), 30 * SECOND);
    assert_eq!(watch.limit(NOW + 45 * SECOND), 15 * SECOND);
    assert_eq!(watch.limit(NOW + 60 * SECOND), 0);
    assert_eq!(watch.limit(NOW + 61 * SECOND), 0);
    // a clock that stands still
    assert_eq!(watch.limit(0), 30 * SECOND);
    assert_eq!(watch.left(NOW + 50 * SECOND), 10 * SECOND);
}

#[test]
fn unit_names() {
    assert_eq!(unit_name("0a"), "colmena-activate-0a");

    let unit = new_unit_name();
    let id = unit.strip_prefix("colmena-activate-").unwrap();
    assert_eq!(id.len(), 32);
    assert!(id
        .chars()
        .all(|c| c.is_ascii_digit() || ('a'..='f').contains(&c)));
    assert_eq!(id.as_bytes()[12], b'4');
    assert!(b"89ab".contains(&id.as_bytes()[16]));
    assert_ne!(unit, new_unit_name());
}

fn detached() -> Detached {
    Detached::new(
        "host".to_string(),
        "unit".to_string(),
        vec!["run".to_string()],
        NOW,
    )
}

/// Takes in an event, and returns what is shown and the activation after it.
fn go(activation: Detached, event: Event, now: u64) -> (Vec<Output>, Detached) {
    let step = activation.step(event, now);
    match step.progress {
        Progress::Going(activation) => (step.outputs, activation),
        done => panic!("{done:?}"),
    }
}

/// Takes in an event that ends the activation.
fn end(activation: Detached, event: Event, now: u64) -> (ColmenaResult<()>, bool) {
    match activation.step(event, now).progress {
        Progress::Done { outcome, stop } => (outcome, stop),
        going => panic!("{going:?}"),
    }
}

fn connected() -> Event {
    Event::Connected(Ok(()))
}

fn line(line: &str) -> Event {
    Event::Read(Read::Line(line.as_bytes().to_vec()))
}

fn argv(activation: &Detached) -> Vec<String> {
    match activation.action(NOW) {
        Action::Connect(argv) => argv,
        action => panic!("{action:?}"),
    }
}

fn message(text: &str) -> Output {
    Output::Message(text.to_string())
}

#[test]
fn only_the_first_session_starts_the_unit() {
    let activation = detached();
    assert_eq!(
        activation.start_message(),
        "Starting activation in unit unit"
    );
    assert_eq!(argv(&activation), vec!["sh", "-s", "unit", "1", "", "run"]);

    let (_, activation) = go(activation, connected(), NOW);
    assert!(matches!(activation.action(NOW), Action::Read(limit) if limit == 30 * SECOND));
    let (_, activation) = go(activation, line("C c\n"), NOW);
    // the connection drops
    let (_, activation) = go(activation, line(""), NOW);
    assert!(matches!(activation.action(NOW), Action::Exit));
    let (_, activation) = go(activation, Event::Exited(Ok(ExitStatus::Code(255))), NOW);
    assert!(matches!(activation.action(NOW), Action::Wait));
    let (_, activation) = go(activation, Event::Waited, NOW + 2 * SECOND);
    assert_eq!(argv(&activation), vec!["sh", "-s", "unit", "0", "c"]);
}

#[test]
fn lost_sessions_are_retried_until_the_window_closes() {
    let (_, activation) = go(detached(), connected(), NOW);
    let (shown, activation) = go(
        activation,
        Event::Read(Read::TimedOut),
        NOW + 15 * SECOND + 1,
    );
    assert_eq!(
        shown,
        vec![message(
            "Lost contact with the host (No answer from the activation watch), reconnecting for up to 44 seconds"
        )]
    );

    // a second loss of the same outage brings no message
    let (_, activation) = go(activation, Event::Waited, NOW + 60 * SECOND - 1);
    let (_, activation) = go(activation, connected(), NOW + 60 * SECOND - 1);
    let (_, activation) = go(activation, line(""), NOW + 60 * SECOND - 1);
    let (shown, activation) = go(
        activation,
        Event::Exited(Ok(ExitStatus::Signal(9))),
        NOW + 60 * SECOND - 1,
    );
    assert!(shown.is_empty());

    let (outcome, stop) = end(activation, Event::Waited, NOW + 60 * SECOND);
    assert!(!stop);
    assert_eq!(
        outcome.unwrap_err().display(),
        "Lost contact with host host for 60 seconds, activation unit unit is in an unknown state: Child process was killed by signal 9"
    );
}

#[test]
fn each_outage_is_announced_once() {
    let lost = |shown: &Vec<Output>| {
        shown
            .iter()
            .filter(|output| matches!(output, Output::Message(m) if m.starts_with("Lost contact")))
            .count()
    };
    let mut activation = detached();
    let mut counts = Vec::new();
    // the third session answers before it is lost
    for answer in [None, None, Some("L x\n"), None] {
        (_, activation) = go(activation, connected(), NOW);
        if let Some(answer) = answer {
            let (shown, next) = go(activation, line(answer), NOW);
            assert_eq!(shown, vec![message("Reconnected to the host")]);
            activation = next;
        }
        let (shown, next) = go(activation, Event::Read(Read::TimedOut), NOW);
        counts.push(lost(&shown));
        (_, activation) = go(next, Event::Waited, NOW);
    }
    assert_eq!(counts, vec![1, 0, 1, 0]);
}

#[test]
fn the_reason_of_systemctl_comes_first() {
    let (_, activation) = go(detached(), connected(), NOW);
    let (_, activation) = go(activation, line("W no bus\n"), NOW);
    let (shown, activation) = go(
        activation,
        Event::Read(Read::TimedOut),
        NOW + 60 * SECOND,
    );
    // with no time left, nobody is told about reconnecting
    assert!(shown.is_empty());
    let (outcome, _) = end(activation, Event::Waited, NOW + 62 * SECOND);
    assert!(matches!(
        outcome,
        Err(ColmenaError::ActivationUnreachable { reason, .. }) if reason == "no bus"
    ));
}

#[test]
fn a_reconnected_session_resumes_the_journal() {
    let (_, activation) = go(detached(), connected(), NOW);
    let (shown, activation) = go(activation, line("L one\n"), NOW);
    assert!(shown.is_empty());
    let (shown, activation) = go(activation, line("C c1\n"), NOW);
    assert_eq!(shown, vec![Output::Stderr("one".to_string())]);
    let (_, activation) = go(activation, line("L two\n"), NOW);
    let (_, activation) = go(activation, line("L thr"), NOW);
    let (shown, activation) = go(activation, Event::Exited(Ok(ExitStatus::Code(255))), NOW);
    assert_eq!(
        shown,
        vec![message(
            "Lost contact with the host (Child process exited with error code: 255), reconnecting for up to 60 seconds"
        )]
    );

    let (_, activation) = go(activation, Event::Waited, NOW + 2 * SECOND);
    assert_eq!(argv(&activation)[4], "c1");
    let (_, activation) = go(activation, connected(), NOW + 2 * SECOND);
    let (shown, activation) = go(activation, line("L two\n"), NOW + 2 * SECOND);
    assert_eq!(shown, vec![message("Reconnected to the host")]);
    let (_, activation) = go(activation, line("L three\n"), NOW + 2 * SECOND);
    let (shown, activation) = go(activation, line("C c3\n"), NOW + 2 * SECOND);
    assert_eq!(
        shown,
        vec![
            Output::Stderr("two".to_string()),
            Output::Stderr("three".to_string())
        ]
    );
    let (outcome, stop) = end(
        activation,
        line("S LoadState=loaded ActiveState=active Result=success ExecMainCode=1 ExecMainStatus=0\n"),
        NOW + 4 * SECOND,
    );
    assert!(outcome.is_ok());
    assert!(stop);
}

#[test]
fn a_status_moves_the_window() {
    let running = "S LoadState=loaded ActiveState=active Result=success ExecMainCode=0 ExecMainStatus=0\n";
    let (_, activation) = go(detached(), connected(), NOW);
    let (_, activation) = go(activation, line(running), NOW + 50 * SECOND);
    let (_, activation) = go(activation, Event::Read(Read::TimedOut), NOW + 80 * SECOND);
    let (_, activation) = go(activation, Event::Waited, NOW + 82 * SECOND);
    assert!(matches!(
        activation.action(NOW + 82 * SECOND),
        Action::Connect(_)
    ));
}

#[test]
fn failed_activations_keep_the_unit() {
    let (_, activation) = go(detached(), connected(), NOW);
    let (outcome, stop) = end(
        activation,
        line("S LoadState=not-found ActiveState=inactive Result=success ExecMainCode=0 ExecMainStatus=0\n"),
        NOW,
    );
    assert!(!stop);
    assert!(matches!(
        outcome,
        Err(ColmenaError::ActivationUnitNotFound { .. })
    ));

    // a bad line, a failed start and an I/O error end the activation too
    let (_, activation) = go(detached(), connected(), NOW);
    let (outcome, _) = end(activation, line("nonsense\n"), NOW);
    assert!(matches!(
        outcome,
        Err(ColmenaError::ActivationBadOutput { .. })
    ));
    let (_, activation) = go(detached(), connected(), NOW);
    let (_, activation) = go(activation, line(""), NOW);
    let (outcome, _) = end(activation, Event::Exited(Ok(ExitStatus::Code(1))), NOW);
    assert!(matches!(
        outcome,
        Err(ColmenaError::ActivationStartFailed { .. })
    ));
    let broken = || std::io::Error::from(std::io::ErrorKind::BrokenPipe);
    let (outcome, _) = end(detached(), Event::Connected(Err(broken())), NOW);
    assert!(matches!(outcome, Err(ColmenaError::IoError { .. })));
    let (_, activation) = go(detached(), connected(), NOW);
    let (outcome, _) = end(activation, Event::Read(Read::Failed(broken())), NOW);
    assert!(matches!(outcome, Err(ColmenaError::IoError { .. })));
}

#[test]
fn unexpected_events_leave_an_activation_alone() {
    let (shown, activation) = go(detached(), Event::Waited, NOW);
    assert!(shown.is_empty());
    let (_, activation) = go(activation, line("L x\n"), NOW);
    assert_eq!(argv(&activation)[3], "1");
}

#[test]
fn stopping_is_only_mentioned_when_it_fails() {
    assert_eq!(stop_message("u", true), None);
    assert_eq!(
        stop_message("u", false).unwrap(),
        "Could not stop the finished unit u, it stays until `systemctl stop u`"
    );
}

#[test]
fn retryable_errors() {
    for error in [
        ColmenaError::ActivationWatchEnded,
        ColmenaError::ActivationStepTimeout,
        ColmenaError::from(ExitStatus::Code(255)),
        ColmenaError::from(ExitStatus::Signal(15)),
    ] {
        assert!(is_retryable(&error), "{error:?}");
    }
    for error in [
        ColmenaError::Unsupported,
        ColmenaError::ActivationBadOutput {
            line: "x".to_string(),
        },
        ColmenaError::from(std::io::Error::from(std::io::ErrorKind::NotFound)),
    ] {
        assert!(!is_retryable(&error), "{error:?}");
    }
}

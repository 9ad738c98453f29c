use command_timeout::error::{kill_error, kill_failure_text, minimum_above_maximum_text};
use command_timeout::kill::{
    finalize_exit_status, judge_kill, process_group, report_timeout, KillVerdict, TimeoutReason,
    ESRCH,
};
use command_timeout::stream::{read_stream_chunk, StreamState};
use command_timeout::text::{decimal_text, duration_text};
use command_timeout::{
    Action, CommandError, CommandRun, Duration, Event, ExitStatus, Instant, PendingCommand, Pipes,
    Stream, TimeoutConfig,
};
use std::io::{Error, ErrorKind};

const EXITED_0: ExitStatus = ExitStatus { raw: 0 };
const KILLED: ExitStatus = ExitStatus { raw: 9 };

fn at_millis(millis: u64) -> Instant {
    Instant::origin()
        .checked_add(Duration::from_millis(millis))
        .unwrap()
}

fn prepare(min: u64, max: u64, activity: u64) -> PendingCommand {
    PendingCommand::prepare(
        Duration::from_millis(min),
        Duration::from_millis(max),
        Duration::from_millis(activity),
    )
    .unwrap()
}

fn launch(min: u64, max: u64, activity: u64) -> CommandRun {
    prepare(min, max, activity)
        .launch(Ok(Pipes { stdout: true, stderr: true }))
        .unwrap()
}

fn tell(run: &mut CommandRun, millis: u64, event: Event) -> Result<Action, CommandError> {
    assert!(run.awaits(&event), "unexpected {:?}", event);
    run.advance_at(at_millis(millis), event)
}

fn read(stream: Stream, bytes: &[u8]) -> Event {
    Event::Read { stream, chunk: bytes.to_vec(), result: Ok(bytes.len()) }
}

fn read_fails(stream: Stream, kind: ErrorKind) -> Event {
    Event::Read { stream, chunk: Vec::new(), result: Err(Error::from(kind)) }
}

/// Reads both streams to their ends.
fn drain(run: &mut CommandRun, millis: u64) -> Action {
    let action = tell(run, millis, read(Stream::Stdout, b"")).unwrap();
    assert!(matches!(action, Action::DrainStream(Stream::Stderr)));
    tell(run, millis, read(Stream::Stderr, b"")).unwrap()
}

#[test]
fn output_and_status_of_a_command_that_exits() {
    let mut run = launch(50, 2000, 1000);
    let action = tell(&mut run, 1, read(Stream::Stdout, b"Hello\n")).unwrap();
    assert!(matches!(action, Action::AwaitEvent));
    let action = tell(&mut run, 100, Event::Exited(Ok(EXITED_0))).unwrap();
    assert!(matches!(action, Action::DrainStream(Stream::Stdout)));
    let action = tell(&mut run, 101, read(Stream::Stdout, b"")).unwrap();
    assert!(matches!(action, Action::DrainStream(Stream::Stderr)));
    let action = tell(&mut run, 101, read(Stream::Stderr, b"World\n")).unwrap();
    assert!(matches!(action, Action::DrainStream(Stream::Stderr)));
    let action = tell(&mut run, 101, read(Stream::Stderr, b"")).unwrap();
    assert!(matches!(action, Action::Finish));

    let output = run.finish();
    assert_eq!(output.stdout, b"Hello\n");
    assert_eq!(output.stderr, b"World\n");
    assert_eq!(output.exit_status, Some(EXITED_0));
    assert_eq!(output.duration, Duration::from_millis(100));
    assert!(!output.timed_out);
}

#[test]
fn capture_keeps_every_chunk_in_order() {
    let mut run = launch(100, 5000, 1000);
    tell(&mut run, 1, read(Stream::Stdout, b"1\n")).unwrap();
    tell(&mut run, 501, read(Stream::Stderr, b"2\n")).unwrap();
    tell(&mut run, 1001, read(Stream::Stdout, b"3\n")).unwrap();
    tell(&mut run, 1501, Event::Exited(Ok(EXITED_0))).unwrap();
    tell(&mut run, 1501, read(Stream::Stdout, b"4\n")).unwrap();
    assert!(matches!(drain(&mut run, 1502), Action::Finish));
    let output = run.finish();
    assert_eq!(output.stdout, b"1\n3\n4\n");
    assert_eq!(output.stderr, b"2\n");
}

#[test]
fn only_the_bytes_that_were_read_are_taken_from_a_chunk() {
    let mut run = launch(100, 5000, 1000);
    let event = Event::Read { stream: Stream::Stdout, chunk: b"abcdef".to_vec(), result: Ok(2) };
    tell(&mut run, 1, event).unwrap();
    tell(&mut run, 2, Event::Exited(Ok(EXITED_0))).unwrap();
    drain(&mut run, 3);
    assert_eq!(run.finish().stdout, b"ab");
}

#[test]
fn a_chunk_shorter_than_its_count_is_not_awaited() {
    let run = launch(100, 5000, 1000);
    let event = Event::Read { stream: Stream::Stdout, chunk: b"a".to_vec(), result: Ok(2) };
    assert!(!run.awaits(&event));
}

#[test]
fn maximum_kills_the_process_group() {
    let mut run = launch(100, 1000, 10_000);
    assert_eq!(run.current_deadline(), at_millis(1000));
    match tell(&mut run, 1001, Event::DeadlineReached(Some(4242))).unwrap() {
        Action::KillGroup { pgid, report } => {
            assert_eq!(pgid, 4242);
            assert_eq!(report.reason, TimeoutReason::Maximum);
            assert_eq!(report.triggered_deadline, at_millis(1000));
            assert_eq!(report.elapsed, Duration::from_millis(1001));
        }
        other => panic!("expected a kill, got {:?}", other),
    }
    let action = tell(&mut run, 1001, Event::KillReturned(Ok(()))).unwrap();
    assert!(matches!(action, Action::DrainStream(Stream::Stdout)));
    assert!(matches!(drain(&mut run, 1002), Action::AwaitExit));
    let action = tell(&mut run, 1003, Event::Exited(Ok(KILLED))).unwrap();
    assert!(matches!(action, Action::Finish));
    let output = run.finish();
    assert!(output.timed_out);
    assert_eq!(output.exit_status, Some(KILLED));
    assert!(output.duration >= Duration::from_millis(1000));
    assert!(output.stdout.is_empty());
    assert!(output.stderr.is_empty());
}

#[test]
fn silence_kills_and_keeps_what_was_said_before() {
    let mut run = launch(200, 10_000, 1000);
    tell(&mut run, 5, read(Stream::Stdout, b"Initial output\n")).unwrap();
    assert_eq!(run.current_deadline(), at_millis(1005));
    match tell(&mut run, 1006, Event::DeadlineReached(Some(7))).unwrap() {
        Action::KillGroup { pgid, report } => {
            assert_eq!(pgid, 7);
            assert_eq!(report.reason, TimeoutReason::Activity);
            assert_eq!(report.triggered_deadline, at_millis(1005));
        }
        other => panic!("expected a kill, got {:?}", other),
    }
    tell(&mut run, 1006, Event::KillReturned(Ok(()))).unwrap();
    drain(&mut run, 1007);
    tell(&mut run, 1007, Event::Exited(Ok(KILLED))).unwrap();
    let output = run.finish();
    assert_eq!(output.stdout, b"Initial output\n");
    assert!(output.timed_out);
    assert!(output.duration >= Duration::from_millis(1000));
}

#[test]
fn output_postpones_the_deadline_up_to_the_maximum() {
    let mut run = launch(1000, 2000, 1000);
    let mut last = run.current_deadline();
    assert_eq!(last, at_millis(1000));
    for i in 0..20 {
        tell(&mut run, 100 * i, read(Stream::Stdout, b"test\n")).unwrap();
        assert!(run.current_deadline() >= last);
        assert!(run.current_deadline() <= at_millis(2000));
        assert!(run.current_deadline() > at_millis(100 * i));
        last = run.current_deadline();
    }
    assert_eq!(last, at_millis(2000));
}

#[test]
fn early_output_does_not_cut_the_minimum_short() {
    let mut run = launch(2000, 5000, 1000);
    assert_eq!(run.current_deadline(), at_millis(2000));
    tell(&mut run, 100, read(Stream::Stdout, b"x")).unwrap();
    assert_eq!(run.current_deadline(), at_millis(2000));
    tell(&mut run, 1500, read(Stream::Stdout, b"x")).unwrap();
    assert_eq!(run.current_deadline(), at_millis(2500));
    tell(&mut run, 2500, Event::DeadlineReached(Some(5))).unwrap();
    tell(&mut run, 2501, Event::KillReturned(Ok(()))).unwrap();
    drain(&mut run, 2502);
    tell(&mut run, 2503, Event::Exited(Ok(KILLED))).unwrap();
    let output = run.finish();
    assert!(output.timed_out);
    assert!(output.duration >= Duration::from_millis(2000));
}

#[test]
fn minimum_that_equals_the_maximum_is_never_cut_short() {
    let mut run = launch(2000, 2000, 1000);
    tell(&mut run, 100, read(Stream::Stdout, b"x")).unwrap();
    assert_eq!(run.current_deadline(), at_millis(2000));
}

#[test]
fn silent_command_is_granted_the_minimum() {
    assert_eq!(launch(3000, 5000, 1000).current_deadline(), at_millis(3000));
    assert_eq!(launch(0, 10_000, 100).current_deadline(), at_millis(100));
}

#[test]
fn end_of_a_stream_is_no_activity() {
    let mut run = launch(0, 5000, 1000);
    let action = tell(&mut run, 500, read(Stream::Stdout, b"")).unwrap();
    assert!(matches!(action, Action::AwaitEvent));
    assert_eq!(run.current_deadline(), at_millis(1000));
    assert!(!run.can_read(Stream::Stdout));
    assert!(run.can_read(Stream::Stderr));
    assert!(!run.awaits(&read(Stream::Stdout, b"late")));
    // The other stream is the only one left to drain.
    let action = tell(&mut run, 600, Event::Exited(Ok(EXITED_0))).unwrap();
    assert!(matches!(action, Action::DrainStream(Stream::Stderr)));
    assert!(!run.can_read(Stream::Stderr));
}

#[test]
fn nothing_is_drained_when_both_streams_have_ended() {
    let mut run = launch(0, 5000, 1000);
    tell(&mut run, 1, read(Stream::Stdout, b"")).unwrap();
    tell(&mut run, 1, read(Stream::Stderr, b"")).unwrap();
    let action = tell(&mut run, 2, Event::Exited(Ok(EXITED_0))).unwrap();
    assert!(matches!(action, Action::Finish));
}

#[test]
fn failing_read_of_a_running_command_is_an_error() {
    let mut run = launch(0, 5000, 1000);
    match tell(&mut run, 1, read_fails(Stream::Stderr, ErrorKind::TimedOut)) {
        Err(CommandError::Io(e)) => assert_eq!(e.kind(), ErrorKind::TimedOut),
        other => panic!("expected an I/O error, got {:?}", other),
    }
    assert!(!run.awaits(&Event::Exited(Ok(EXITED_0))));
}

#[test]
fn failing_read_of_a_command_that_is_over_ends_the_draining() {
    let mut run = launch(0, 5000, 1000);
    tell(&mut run, 1, Event::Exited(Ok(EXITED_0))).unwrap();
    tell(&mut run, 2, read(Stream::Stdout, b"kept")).unwrap();
    let action = tell(&mut run, 2, read_fails(Stream::Stdout, ErrorKind::BrokenPipe)).unwrap();
    assert!(matches!(action, Action::DrainStream(Stream::Stderr)));
    let action = tell(&mut run, 2, read_fails(Stream::Stderr, ErrorKind::Other)).unwrap();
    assert!(matches!(action, Action::Finish));
    let output = run.finish();
    assert_eq!(output.stdout, b"kept");
    assert_eq!(output.exit_status, Some(EXITED_0));
}

#[test]
fn failing_wait_for_a_running_command_is_an_error() {
    let mut run = launch(0, 5000, 1000);
    match tell(&mut run, 1, Event::Exited(Err(Error::from(ErrorKind::Other)))) {
        Err(CommandError::Wait(e)) => assert_eq!(e.kind(), ErrorKind::Other),
        other => panic!("expected a wait error, got {:?}", other),
    }
}

#[test]
fn failing_wait_for_a_killed_command_leaves_its_status_unknown() {
    let mut run = launch(0, 5000, 1000);
    tell(&mut run, 1000, Event::DeadlineReached(Some(5))).unwrap();
    tell(&mut run, 1000, Event::KillReturned(Ok(()))).unwrap();
    drain(&mut run, 1001);
    let action = tell(&mut run, 1001, Event::Exited(Err(Error::from(ErrorKind::Other)))).unwrap();
    assert!(matches!(action, Action::Finish));
    let output = run.finish();
    assert_eq!(output.exit_status, None);
    assert!(output.timed_out);
}

#[test]
fn command_without_a_process_identifier_is_looked_at() {
    let mut run = launch(0, 5000, 1000);
    let action = tell(&mut run, 1000, Event::DeadlineReached(None)).unwrap();
    assert!(matches!(action, Action::PollChild));
    tell(&mut run, 1001, Event::Polled(Ok(Some(EXITED_0)))).unwrap();
    assert!(matches!(drain(&mut run, 1002), Action::Finish));
    let output = run.finish();
    assert!(!output.timed_out);
    assert_eq!(output.exit_status, Some(EXITED_0));

    let mut run = launch(0, 5000, 1000);
    tell(&mut run, 1000, Event::DeadlineReached(None)).unwrap();
    tell(&mut run, 1001, Event::Polled(Ok(None))).unwrap();
    assert!(matches!(drain(&mut run, 1002), Action::AwaitExit));

    let mut run = launch(0, 5000, 1000);
    tell(&mut run, 1000, Event::DeadlineReached(None)).unwrap();
    let r = tell(&mut run, 1001, Event::Polled(Err(Error::from(ErrorKind::Other))));
    assert!(matches!(r, Err(CommandError::Wait(_))));
}

#[test]
fn endless_output_does_not_put_the_maximum_off() {
    let mut run = launch(100, 2000, 1000);
    for t in 0..2000 {
        let action = tell(&mut run, t, read(Stream::Stdout, b"y\n")).unwrap();
        assert!(matches!(action, Action::AwaitEvent));
    }
    let action = tell(&mut run, 2000, read(Stream::Stdout, b"y\n")).unwrap();
    assert!(matches!(action, Action::DeadlinePassed));
    assert!(!run.can_read(Stream::Stdout));
    assert!(!run.awaits(&read(Stream::Stdout, b"y\n")));
    assert!(!run.awaits(&read(Stream::Stderr, b"y\n")));
    match tell(&mut run, 2000, Event::DeadlineReached(Some(5))).unwrap() {
        Action::KillGroup { pgid, report } => {
            assert_eq!(pgid, 5);
            assert_eq!(report.reason, TimeoutReason::Maximum);
        }
        other => panic!("expected a kill, got {:?}", other),
    }
    tell(&mut run, 2000, Event::KillReturned(Ok(()))).unwrap();
    drain(&mut run, 2001);
    tell(&mut run, 2001, Event::Exited(Ok(KILLED))).unwrap();
    let output = run.finish();
    assert!(output.timed_out);
    assert_eq!(output.stdout.len(), 2 * 2001);
    assert_eq!(output.duration, Duration::from_millis(2000));
}

#[test]
fn command_that_exits_just_when_its_time_is_up_has_not_timed_out() {
    let mut run = launch(100, 2000, 1000);
    // The end of a stream at the maximum is noticed too.
    let action = tell(&mut run, 2000, read(Stream::Stderr, b"")).unwrap();
    assert!(matches!(action, Action::DeadlinePassed));
    tell(&mut run, 2001, Event::Exited(Ok(EXITED_0))).unwrap();
    let action = tell(&mut run, 2002, read(Stream::Stdout, b"")).unwrap();
    assert!(matches!(action, Action::Finish));
    assert!(!run.finish().timed_out);

    let mut run = launch(100, 2000, 1000);
    tell(&mut run, 2000, read(Stream::Stderr, b"x")).unwrap();
    let r = tell(&mut run, 2001, Event::Exited(Err(Error::from(ErrorKind::Other))));
    assert!(matches!(r, Err(CommandError::Wait(_))));
}

#[test]
fn draining_does_not_count_toward_the_duration() {
    let mut run = launch(100, 1000, 500);
    tell(&mut run, 2, Event::Exited(Ok(EXITED_0))).unwrap();
    assert!(matches!(drain(&mut run, 5000), Action::Finish));
    let output = run.finish();
    assert_eq!(output.duration, Duration::from_millis(2));
    assert!(!output.timed_out);
    assert!(output.stdout.is_empty());

    let mut run = launch(100, 1000, 500);
    tell(&mut run, 500, Event::DeadlineReached(Some(5))).unwrap();
    tell(&mut run, 501, Event::KillReturned(Ok(()))).unwrap();
    drain(&mut run, 5000);
    tell(&mut run, 6000, Event::Exited(Ok(KILLED))).unwrap();
    assert_eq!(run.finish().duration, Duration::from_millis(501));
}

#[test]
fn command_that_had_exited_before_the_kill_has_not_timed_out() {
    let mut run = launch(0, 5000, 1000);
    tell(&mut run, 1000, Event::DeadlineReached(Some(5))).unwrap();
    let action = tell(&mut run, 1000, Event::KillReturned(Err(ESRCH))).unwrap();
    assert!(matches!(action, Action::PollChild));
    let action = tell(&mut run, 1000, Event::Polled(Ok(Some(EXITED_0)))).unwrap();
    assert!(matches!(action, Action::DrainStream(Stream::Stdout)));
    assert!(matches!(drain(&mut run, 1000), Action::Finish));
    let output = run.finish();
    assert!(!output.timed_out);
    assert_eq!(output.exit_status, Some(EXITED_0));
}

#[test]
fn command_still_there_without_its_group_has_timed_out() {
    let mut run = launch(0, 5000, 1000);
    tell(&mut run, 1000, Event::DeadlineReached(Some(5))).unwrap();
    tell(&mut run, 1000, Event::KillReturned(Err(ESRCH))).unwrap();
    tell(&mut run, 1000, Event::Polled(Ok(None))).unwrap();
    assert!(matches!(drain(&mut run, 1000), Action::AwaitExit));
}

#[test]
fn failing_look_at_the_command_is_an_error() {
    let mut run = launch(0, 5000, 1000);
    tell(&mut run, 1000, Event::DeadlineReached(Some(5))).unwrap();
    tell(&mut run, 1000, Event::KillReturned(Err(ESRCH))).unwrap();
    match tell(&mut run, 1000, Event::Polled(Err(Error::from(ErrorKind::Interrupted)))) {
        Err(CommandError::Wait(e)) => assert_eq!(e.kind(), ErrorKind::Interrupted),
        other => panic!("expected a wait error, got {:?}", other),
    }
}

#[test]
fn refused_kill_is_an_error_with_the_reason() {
    let mut run = launch(0, 5000, 1000);
    tell(&mut run, 1000, Event::DeadlineReached(Some(4294967295))).unwrap();
    match tell(&mut run, 1000, Event::KillReturned(Err(1))) {
        Err(CommandError::Kill(e)) => {
            assert_eq!(e.kind(), ErrorKind::Other);
            assert_eq!(
                e.to_string(),
                "Failed to kill process group for PID 4294967295: EPERM: Operation not permitted"
            );
        }
        other => panic!("expected a kill error, got {:?}", other),
    }
}

#[test]
fn launch_needs_a_process_and_both_streams() {
    match prepare(0, 10, 10).launch(Err(Error::from(ErrorKind::NotFound))) {
        Err(CommandError::Spawn(e)) => assert_eq!(e.kind(), ErrorKind::NotFound),
        other => panic!("expected a spawn error, got {:?}", other),
    }
    let launched = |stdout, stderr| prepare(0, 10, 10).launch(Ok(Pipes { stdout, stderr }));
    assert!(matches!(launched(false, true), Err(CommandError::StdoutPipe)));
    assert!(matches!(launched(false, false), Err(CommandError::StdoutPipe)));
    assert!(matches!(launched(true, false), Err(CommandError::StderrPipe)));
    assert!(launched(true, true).is_ok());
}

#[test]
fn preparation_rejects_invalid_timeouts() {
    let secs = Duration::from_secs;
    let r = PendingCommand::prepare(secs(2), secs(1), secs(1));
    assert!(matches!(r, Err(CommandError::InvalidTimeout(_))));
    let r = PendingCommand::prepare(Duration::from_millis(100), secs(1), secs(0));
    assert!(matches!(r, Err(CommandError::InvalidTimeout(_))));
}

#[test]
fn real_clock_drives_a_run_too() {
    let mut run = launch(50, 60_000, 30_000);
    let first = run.current_deadline();
    assert_eq!(first, at_millis(30_000));
    run.advance(read(Stream::Stdout, b"now")).unwrap();
    assert!(run.current_deadline() > first);
    assert!(run.current_deadline() < at_millis(60_000));
    run.advance(Event::Exited(Ok(EXITED_0))).unwrap();
    run.advance(read(Stream::Stdout, b"")).unwrap();
    run.advance(read(Stream::Stderr, b"")).unwrap();
    let clock = run.clock();
    let output = run.finish();
    assert!(!output.duration.is_zero());
    assert!(output.duration <= clock.now().duration_since(Instant::origin()));
    assert_eq!(output.stdout, b"now");
}

#[test]
fn kill_results_are_told_apart() {
    assert_eq!(judge_kill(7, Ok(())).unwrap(), KillVerdict::Sent);
    assert_eq!(judge_kill(7, Err(3)).unwrap(), KillVerdict::GroupGone);
    assert!(matches!(judge_kill(7, Err(2)), Err(CommandError::Kill(_))));
    assert!(matches!(judge_kill(7, Err(0)), Err(CommandError::Kill(_))));
}

#[test]
fn kill_errors_name_the_process_and_the_reason() {
    match kill_error(42, 3) {
        CommandError::Kill(e) => assert_eq!(
            e.to_string(),
            "Failed to kill process group for PID 42: ESRCH: No such process"
        ),
        other => panic!("expected a kill error, got {:?}", other),
    }
    assert_eq!(
        kill_failure_text(0, "why"),
        "Failed to kill process group for PID 0: why"
    );
    assert_eq!(
        minimum_above_maximum_text("a", "b"),
        "minimum_timeout (a) cannot be greater than maximum_timeout (b)"
    );
}

#[test]
fn errors_say_what_went_wrong() {
    let io = || Error::from(ErrorKind::Other);
    assert_eq!(CommandError::Spawn(io()).message_text(), "Failed to spawn command");
    assert_eq!(CommandError::StdoutPipe.message_text(), "Failed to get command stdout");
    assert_eq!(CommandError::StderrPipe.message_text(), "Failed to get command stderr");
    assert_eq!(CommandError::Io(io()).message_text(), "I/O error reading command output");
    assert_eq!(CommandError::Kill(io()).message_text(), "Failed to kill command");
    assert_eq!(CommandError::Wait(io()).message_text(), "Failed to wait for command exit");
    assert_eq!(
        CommandError::InvalidTimeout("no".to_string()).message_text(),
        "Invalid timeout configuration: no"
    );
}

#[test]
fn process_groups_are_signed() {
    assert_eq!(process_group(1), 1);
    assert_eq!(process_group(2147483647), 2147483647);
    assert_eq!(process_group(2147483648), -2147483648);
    assert_eq!(process_group(4294967295), -1);
}

#[test]
fn timeout_reason_turns_at_the_absolute_deadline() {
    let timeouts = TimeoutConfig::starting_at(
        at_millis(1000),
        Duration::from_millis(0),
        Duration::from_millis(500),
        Duration::from_millis(100),
    );
    let report = report_timeout(at_millis(1499), at_millis(1400), &timeouts);
    assert_eq!(report.reason, TimeoutReason::Activity);
    assert_eq!(report.triggered_deadline, at_millis(1400));
    assert_eq!(report.elapsed, Duration::from_millis(499));
    let report = report_timeout(at_millis(1500), at_millis(1400), &timeouts);
    assert_eq!(report.reason, TimeoutReason::Maximum);
    assert_eq!(report.triggered_deadline, at_millis(1500));
    let report = report_timeout(at_millis(900), at_millis(1400), &timeouts);
    assert!(report.elapsed.is_zero());
}

#[test]
fn final_status_is_awaited_only_after_a_kill() {
    let failed = || Err(Error::from(ErrorKind::Other));
    assert_eq!(finalize_exit_status(None, true, Ok(KILLED)), Some(KILLED));
    assert_eq!(finalize_exit_status(None, true, failed()), None);
    assert_eq!(finalize_exit_status(Some(EXITED_0), true, Ok(KILLED)), Some(EXITED_0));
    assert_eq!(finalize_exit_status(Some(EXITED_0), false, failed()), Some(EXITED_0));
    assert_eq!(finalize_exit_status(None, false, Ok(KILLED)), None);
}

#[test]
fn reads_of_nothing_are_the_end() {
    assert_eq!(read_stream_chunk(Ok(0)).unwrap(), None);
    assert_eq!(read_stream_chunk(Ok(12)).unwrap(), Some(12));
    let e = read_stream_chunk(Err(Error::from(ErrorKind::WouldBlock))).unwrap_err();
    assert_eq!(e.kind(), ErrorKind::WouldBlock);
}

#[test]
fn draining_reads_on_until_the_end() {
    let mut stream = StreamState::fresh();
    let chunk = vec![0u8, 255, 10, 13];
    assert!(stream.drain_reader(&chunk, Ok(4)));
    assert!(stream.drain_reader(&chunk, Ok(1)));
    assert!(stream.open);
    assert!(!stream.drain_reader(&chunk, Ok(0)));
    assert!(!stream.open);
    assert_eq!(stream.buffer, vec![0u8, 255, 10, 13, 0]);
}

#[test]
fn numbers_and_spans_in_words() {
    assert_eq!(decimal_text(0), "0");
    assert_eq!(decimal_text(10), "10");
    assert_eq!(decimal_text(4294967295), "4294967295");
    assert_eq!(duration_text(Duration::from_secs(0)), "0ns");
    assert_eq!(duration_text(Duration::from_millis(20)), "20ms");
    assert_eq!(duration_text(Duration::from_parts(3, 25_000_000)), "3.025s");
}

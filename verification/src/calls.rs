//! What the results of calls have to do with each other.

use crate::effects::{law_error_gives_the_command_up, law_only_reads_add_bytes};
use crate::error::{kill_error, minimum_above_maximum_text, other_io_error, CommandError};
use crate::kill::{
    finalize_exit_status, judge_kill, needs_final_wait, process_group, report_timeout, ExitStatus,
    KillVerdict, TimeoutReason, TimeoutReport,
};
use crate::run::{
    spawn_command_and_setup_state, Action, CommandExecutionState, CommandOutput, CommandRun,
    Event, PendingCommand, Phase, Pipes,
};
use crate::stream::{read_stream_chunk, Stream, StreamState};
use crate::text::{
    decimal, decimal_text, duration_debug, duration_text, errno_display,
    law_decimal_stands_for_its_number, law_span_is_told_by_its_parts, std_duration_debug, value_of,
};
use crate::time::{clock_shows, last_instant, Clock, Duration, Instant};
use crate::timeouts::{
    calculate_new_deadline, extend_deadline_at, handle_stream_activity, new_deadline_at,
    validate_timeouts, TimeoutConfig,
};
use vstd::prelude::*;

verus! {

/// A span is as long as the seconds, milliseconds or parts that it was made from.
pub proof fn law_span_is_what_it_was_made_from(
    secs: u64,
    nanos: u32,
    from_secs: Duration,
    from_millis: Duration,
    from_parts: Duration,
)
    requires
        nanos < 1_000_000_000,
        call_ensures(Duration::from_secs, (secs,), from_secs),
        call_ensures(Duration::from_millis, (secs,), from_millis),
        call_ensures(Duration::from_parts, (secs, nanos), from_parts),
    ensures
        from_secs@ == 1000 * from_millis@,
        from_parts@ == from_secs@ + nanos,
        from_millis@ == secs * 1_000_000,
{
}

/// The parts of a span are less than a second and whole seconds, and make up the
/// span; a span is zero if both are.
pub proof fn law_parts_make_up_the_span(d: Duration, secs: u64, nanos: u32, zero: bool)
    requires
        call_ensures(Duration::as_secs, (&d,), secs),
        call_ensures(Duration::subsec_nanos, (&d,), nanos),
        call_ensures(Duration::is_zero, (&d,), zero),
    ensures
        nanos < 1_000_000_000,
        secs * 1_000_000_000 + nanos == d@,
        zero <==> secs == 0 && nanos == 0,
{
}

/// To go forward by a span and back again leads to where one came from, and the
/// time between the two points is the span; it cannot be done only if there is no
/// such point.
pub proof fn law_forward_and_back(
    t: Instant,
    d: Duration,
    there: Option<Instant>,
    back: Option<Instant>,
    between: Duration,
)
    requires
        t.nanos_in_range(),
        call_ensures(Instant::checked_add, (t, d), there),
        there is Some ==> call_ensures(Instant::checked_sub, (there->Some_0, d), back),
        there is Some ==> call_ensures(Instant::duration_since, (&there->Some_0, t), between),
    ensures
        there is None <==> t@ + d@ > last_instant(),
        there is Some ==> {
            &&& there->Some_0@ - t@ == d@
            &&& between@ == d@
            &&& back is Some && back->Some_0@ == t@
        },
{
    t.lemma_in_range();
}

/// The time between two points is the same whichever is asked about, but for the
/// one that comes first, for which it is zero.
pub proof fn law_time_since(s: Instant, t: Instant, forth: Duration, back: Duration)
    requires
        call_ensures(Instant::duration_since, (&t, s), forth),
        call_ensures(Instant::duration_since, (&s, t), back),
    ensures
        forth@ - back@ == t@ - s@,
        forth@ == 0 || back@ == 0,
{
}

/// A reading of a clock lies at or after the clock's origin and is one that the
/// clock has shown.
pub proof fn law_reading_of_a_clock(clock: Clock, origin: Instant, t: Instant)
    requires
        call_ensures(Instant::origin, (), origin),
        call_ensures(Clock::now, (&clock,), t),
    ensures
        origin@ <= t@,
        clock_shows(clock@, t@),
{
}

/// A clock is started at what the operating system gives as the current time, and
/// a command's clock counts from when the command was started.
pub proof fn law_clock_of_a_command(
    started: Clock,
    run: CommandRun,
    clock: Clock,
    origin: std::time::Instant,
)
    requires
        call_ensures(Clock::start, (), started),
        call_ensures(CommandRun::clock, (&run,), clock),
        call_ensures(Clock::std_origin, (&clock,), origin),
    ensures
        call_ensures(std::time::Instant::now, (), started@),
        origin == clock@,
        origin == run.started(),
{
}

/// Timeouts are accepted if the minimum does not lie above the maximum and some
/// silence is allowed; all else is reported as invalid timeouts.
pub proof fn law_accepted_timeouts(
    min: Duration,
    max: Duration,
    activity: Duration,
    r: Result<(), CommandError>,
)
    requires
        call_ensures(validate_timeouts, (min, max, activity), r),
    ensures
        r is Ok <==> min@ <= max@ && activity@ != 0,
        r matches Err(e) ==> e is InvalidTimeout,
        r is Err && min@ <= max@ ==> r->Err_0->InvalidTimeout_0@
            == "activity_timeout must be positive"@,
        r is Err && min@ > max@ ==> r->Err_0->InvalidTimeout_0@ == "minimum_timeout ("@
            + duration_debug(min@) + ") cannot be greater than maximum_timeout ("@ + duration_debug(
            max@,
        ) + ")"@,
{
}

/// A command that is prepared and launched is given the timeouts that were passed
/// in, counts from zero, and is to be killed when both the minimum and the
/// activity timeout have passed, or at the maximum if that is earlier.
pub proof fn law_launched_with_the_timeouts_passed_in(
    min: Duration,
    max: Duration,
    activity: Duration,
    spawned: Result<Pipes, std::io::Error>,
    prepared: Result<PendingCommand, CommandError>,
    launched: Result<CommandRun, CommandError>,
    deadline: Instant,
)
    requires
        call_ensures(PendingCommand::prepare, (min, max, activity), prepared),
        prepared is Ok ==> call_ensures(PendingCommand::launch, (prepared->Ok_0, spawned), launched),
        prepared is Ok && launched is Ok ==> call_ensures(
            CommandRun::current_deadline,
            (&launched->Ok_0,),
            deadline,
        ),
    ensures
        prepared is Ok <==> min@ <= max@ && activity@ != 0,
        prepared is Ok ==> (launched is Ok <==> (spawned matches Ok(pipes) && pipes.stdout
            && pipes.stderr)),
        prepared is Ok && launched is Ok ==> {
            let timeouts = launched->Ok_0@.timeouts;
            &&& timeouts.minimum == min@
            &&& timeouts.maximum == max@
            &&& timeouts.activity == activity@
            &&& timeouts.start_time == 0
            &&& timeouts.absolute_deadline == max@
            &&& launched->Ok_0.started() == prepared->Ok_0.started()
            &&& launched->Ok_0@.phase == Phase::Running
            &&& launched->Ok_0@.stdout.open && launched->Ok_0@.stdout.bytes.len() == 0
            &&& launched->Ok_0@.stderr.open && launched->Ok_0@.stderr.bytes.len() == 0
            &&& deadline@ <= max@
            &&& deadline@ < max@ ==> deadline@ >= min@ && deadline@ >= activity@
            &&& deadline@ <= min@ || deadline@ <= activity@
        },
{
}

/// The output of a finished command is what was captured from it, the status that
/// it ended with, and the time from its start to its end.
pub proof fn law_output_is_what_was_gathered(run: CommandRun, output: CommandOutput)
    requires
        run@.wf(),
        run@.phase == Phase::Finished,
        call_ensures(CommandRun::finish, (run,), output),
    ensures
        output.stdout@ == run@.stdout.bytes,
        output.stderr@ == run@.stderr.bytes,
        output.exit_status == run@.exit_status,
        output.timed_out == run@.timed_out,
        run@.ended_at is Some,
        run@.timeouts.start_time <= run@.ended_at->Some_0 ==> run@.timeouts.start_time
            + output.duration@ == run@.ended_at->Some_0,
        run@.timeouts.start_time > run@.ended_at->Some_0 ==> output.duration@ == 0,
{
}

/// A stream can be read from if a read from it can end, while the command runs.
pub proof fn law_can_read_what_is_awaited(
    run: CommandRun,
    stream: Stream,
    chunk: Vec<u8>,
    can: bool,
    awaited: bool,
)
    requires
        call_ensures(CommandRun::can_read, (&run, stream), can),
        call_ensures(
            CommandRun::awaits,
            (&run, &(Event::Read { stream, chunk, result: Ok(0) })),
            awaited,
        ),
    ensures
        can <==> awaited && run@.phase == Phase::Running,
{
}

/// A final wait is needed only for a command that timed out without a status, and
/// only then does what it gives become the status.
pub proof fn law_final_wait_gives_the_missing_status(
    current: Option<ExitStatus>,
    timed_out: bool,
    waited: Result<ExitStatus, std::io::Error>,
    needed: bool,
    status: Option<ExitStatus>,
)
    requires
        call_ensures(needs_final_wait, (current, timed_out), needed),
        call_ensures(finalize_exit_status, (current, timed_out, waited), status),
    ensures
        current is Some || !timed_out ==> !needed && status == current,
        current is None && timed_out ==> needed,
        needed && waited is Ok ==> status == Some(waited->Ok_0),
        needed && waited is Err ==> status is None,
{
}

/// A read of no bytes is the end of a stream; any other is as it was.
pub proof fn law_reading_nothing_is_the_end(
    result: Result<usize, std::io::Error>,
    r: Result<Option<usize>, std::io::Error>,
)
    requires
        call_ensures(read_stream_chunk, (result,), r),
    ensures
        r is Err <==> result is Err,
        result is Err ==> r->Err_0 == result->Err_0,
        result is Ok && result->Ok_0 == 0 ==> r->Ok_0 is None,
        result is Ok && result->Ok_0 > 0 ==> r->Ok_0 == Some(result->Ok_0),
{
}

/// A deadline that is set on activity is the activity timeout from now, capped by
/// the absolute deadline, whether the time is given or read from a clock.
pub proof fn law_new_deadline_is_capped(
    clock: Clock,
    now: Instant,
    absolute: Instant,
    activity: Duration,
    given: Instant,
    read: Instant,
)
    requires
        call_ensures(new_deadline_at, (now, absolute, activity), given),
        call_ensures(calculate_new_deadline, (&clock, absolute, activity), read),
    ensures
        given@ <= absolute@,
        given@ <= now@ + activity@,
        given@ == absolute@ || given@ == now@ + activity@,
        read@ <= absolute@,
        read@ < absolute@ ==> clock_shows(clock@, read@ - activity@),
{
}

/// The deadline of a command that has said nothing follows from the timeouts that
/// it was made with.
pub proof fn law_first_deadline(
    start: Instant,
    min: Duration,
    max: Duration,
    activity: Duration,
    timeouts: TimeoutConfig,
    deadline: Instant,
)
    requires
        call_ensures(TimeoutConfig::starting_at, (start, min, max, activity), timeouts),
        call_ensures(TimeoutConfig::initial_deadline, (&timeouts,), deadline),
    ensures
        deadline@ - start@ <= max@,
        deadline@ - start@ < max@ ==> deadline@ - start@ >= min@ && deadline@ - start@
            >= activity@,
        deadline@ - start@ <= min@ || deadline@ - start@ <= activity@,
{
}

/// A timeout is put down to the maximum if and only if it has passed since the
/// start.
pub proof fn law_timeout_reported(
    start: Instant,
    min: Duration,
    max: Duration,
    activity: Duration,
    timeouts: TimeoutConfig,
    now: Instant,
    current: Instant,
    report: TimeoutReport,
)
    requires
        call_ensures(TimeoutConfig::starting_at, (start, min, max, activity), timeouts),
        call_ensures(report_timeout, (now, current, &timeouts), report),
    ensures
        report.reason == TimeoutReason::Maximum <==> now@ - start@ >= max@,
        report.reason == TimeoutReason::Maximum ==> report.triggered_deadline@ - start@ == max@,
        report.reason == TimeoutReason::Activity ==> report.triggered_deadline@ == current@,
        now@ >= start@ ==> report.elapsed@ == now@ - start@,
        now@ < start@ ==> report.elapsed@ == 0,
{
}

/// No two processes lead the same group, and a small number is its own group.
pub proof fn law_groups_differ(pid: u32, other: u32, group: i32, other_group: i32)
    requires
        call_ensures(process_group, (pid,), group),
        call_ensures(process_group, (other,), other_group),
    ensures
        group == other_group ==> pid == other,
        group >= 0 ==> group == pid,
        pid < 0x8000_0000 ==> group == pid,
{
}

/// A kill is judged by what the system said of it alone, but for the text of the
/// error.
pub proof fn law_kill_is_judged_by_the_answer(
    pid: u32,
    answer: Result<(), i32>,
    r: Result<KillVerdict, CommandError>,
)
    requires
        call_ensures(judge_kill, (pid, answer), r),
    ensures
        answer is Ok ==> r is Ok && r->Ok_0 == KillVerdict::Sent,
        answer is Err && answer->Err_0 == 3 ==> r is Ok && r->Ok_0 == KillVerdict::GroupGone,
        answer is Err && answer->Err_0 != 3 ==> r is Err && r->Err_0 is Kill,
{
}

/// A command that could be spawned with both its streams starts out with them open
/// and empty, and with the deadline that it was given.
pub proof fn law_state_of_a_spawned_command(
    spawned: Result<Pipes, std::io::Error>,
    deadline: Instant,
    r: Result<CommandExecutionState, CommandError>,
    fresh: StreamState,
)
    requires
        call_ensures(spawn_command_and_setup_state, (spawned, deadline), r),
        call_ensures(StreamState::fresh, (), fresh),
    ensures
        fresh.open && fresh.buffer@.len() == 0,
        spawned is Err ==> r is Err && r->Err_0 == CommandError::Spawn(spawned->Err_0),
        spawned is Ok && !spawned->Ok_0.stdout ==> r is Err && r->Err_0
            == CommandError::StdoutPipe,
        spawned is Ok && spawned->Ok_0.stdout && !spawned->Ok_0.stderr ==> r is Err && r->Err_0
            == CommandError::StderrPipe,
        spawned is Ok && spawned->Ok_0.stdout && spawned->Ok_0.stderr ==> {
            &&& r is Ok
            &&& r->Ok_0.stdout.open && r->Ok_0.stdout.buffer@.len() == 0
            &&& r->Ok_0.stderr.open && r->Ok_0.stderr.buffer@.len() == 0
            &&& r->Ok_0.current_deadline == deadline
            &&& !r->Ok_0.timed_out
            &&& r->Ok_0.exit_status is None
            &&& r->Ok_0.ended_at is None
        },
{
}

/// The text of a number stands for the number; the text of a span is that of its
/// parts.
pub proof fn law_texts_stand_for_what_they_say(
    n: u32,
    number: String,
    secs: u64,
    nanos: u32,
    d: Duration,
    span: String,
)
    requires
        nanos < 1_000_000_000,
        call_ensures(decimal_text, (n,), number),
        call_ensures(Duration::from_parts, (secs, nanos), d),
        call_ensures(duration_text, (d,), span),
    ensures
        value_of(number@) == n,
        span@ == std_duration_debug(secs, nanos),
{
    law_decimal_stands_for_its_number(n as nat);
    law_span_is_told_by_its_parts(secs, nanos);
}

/// The text of an error is what the error says; the error of a kill that failed
/// carries a text that names the process in decimal and ends in the reason.
pub proof fn law_texts_of_errors(
    e: CommandError,
    text: String,
    pid: u32,
    code: i32,
    failure: CommandError,
    min: &str,
    max: &str,
    above: String,
)
    requires
        call_ensures(CommandError::message_text, (&e,), text),
        call_ensures(kill_error, (pid, code), failure),
        call_ensures(minimum_above_maximum_text, (min, max), above),
    ensures
        text@ == e.message(),
        failure == CommandError::Kill(
            other_io_error(
                "Failed to kill process group for PID "@ + decimal(pid as nat) + ": "@
                    + errno_display(code),
            ),
        ),
        above@ == "minimum_timeout ("@ + min@ + ") cannot be greater than maximum_timeout ("@ + max@
            + ")"@,
{
}

/// A command that is told of an event keeps its timeouts and its clock, has what
/// was captured from it before, and has the status that the event gave, if it gave
/// one. It ends when it is told of its exit or of its kill, and no other time is
/// taken for its end.
pub proof fn law_told_of_an_event(
    run: &mut CommandRun,
    now: Instant,
    event: Event,
    r: Result<Action, CommandError>,
)
    requires
        old(run)@.wf(),
        old(run)@.awaits(event),
        call_ensures(CommandRun::advance_at, (run, now, event), r),
    ensures
        final(run).started() == old(run).started(),
        final(run)@.timeouts == old(run)@.timeouts,
        old(run)@.stdout.bytes.is_prefix_of(final(run)@.stdout.bytes),
        old(run)@.stderr.bytes.is_prefix_of(final(run)@.stderr.bytes),
        event matches Event::Exited(Ok(status)) ==> final(run)@.exit_status == Some(status),
        event matches Event::Polled(Ok(Some(status))) ==> final(run)@.exit_status == Some(status),
        event is Read || event is DeadlineReached || event is KillReturned
            ==> final(run)@.exit_status == old(run)@.exit_status,
        old(run)@.ended_at is Some ==> final(run)@.ended_at == old(run)@.ended_at,
        old(run)@.ended_at is None ==> final(run)@.ended_at is None || final(run)@.ended_at == Some(
            now@,
        ),
        event matches Event::KillReturned(Ok(_)) ==> final(run)@.ended_at == Some(now@),
        event matches Event::Polled(Ok(_)) ==> final(run)@.ended_at == Some(now@),
        r is Err <==> final(run)@.phase == Phase::Failed,
{
    law_only_reads_add_bytes(old(run)@, now@, event, Stream::Stdout);
    law_only_reads_add_bytes(old(run)@, now@, event, Stream::Stderr);
    law_error_gives_the_command_up(old(run)@, now@, event);
}

/// A running command that is told of a read that succeeded is to be awaited
/// further as long as the maximum has not passed, and no further from then on.
pub proof fn law_told_of_a_read(
    run: &mut CommandRun,
    now: Instant,
    stream: Stream,
    chunk: Vec<u8>,
    n: usize,
    r: Result<Action, CommandError>,
)
    requires
        old(run)@.wf(),
        old(run)@.phase == Phase::Running,
        old(run)@.awaits((Event::Read { stream, chunk, result: Ok(n) })),
        call_ensures(
            CommandRun::advance_at,
            (run, now, (Event::Read { stream, chunk, result: Ok(n) })),
            r,
        ),
    ensures
        r is Ok,
        r->Ok_0 == Action::AwaitEvent <==> now@ - old(run)@.timeouts.start_time
            < old(run)@.timeouts.maximum,
        r->Ok_0 == Action::DeadlinePassed <==> now@ - old(run)@.timeouts.start_time
            >= old(run)@.timeouts.maximum,
        final(run)@.stream(stream).bytes == old(run)@.stream(stream).bytes + chunk@.take(n as int),
        final(run)@.stream(stream).open <==> n > 0,
{
    assert(final(run)@.stream(stream).bytes =~= old(run)@.stream(stream).bytes + chunk@.take(
        n as int,
    ));
}

/// To tell a command of an event is to tell it of the event at a time that its
/// clock shows.
pub proof fn law_told_of_an_event_as_it_happens(
    run: &mut CommandRun,
    event: Event,
    r: Result<Action, CommandError>,
)
    requires
        old(run)@.wf(),
        old(run)@.awaits(event),
        call_ensures(CommandRun::advance, (run, event), r),
    ensures
        final(run).started() == old(run).started(),
        final(run)@.timeouts == old(run)@.timeouts,
        old(run)@.ended_at is Some ==> final(run)@.ended_at == old(run)@.ended_at,
        old(run)@.ended_at is None && final(run)@.ended_at is Some ==> clock_shows(
            old(run).started(),
            final(run)@.ended_at->Some_0,
        ),
        event matches Event::Exited(Ok(status)) ==> final(run)@.exit_status == Some(status),
        r is Err <==> final(run)@.phase == Phase::Failed,
{
    let now = choose|now: int|
        {
            &&& #[trigger] clock_shows(old(run).started(), now)
            &&& final(run)@ == old(run)@.next(now, event)
        };
    law_error_gives_the_command_up(old(run)@, now, event);
}

/// A deadline that is moved on activity is moved to where the timeouts allow, and
/// not at all once it has come up to the absolute deadline; whether the time is
/// given or read from a clock.
pub proof fn law_moved_deadline(
    clock: Clock,
    now: Instant,
    bytes_read: usize,
    stream_name: &str,
    given: &mut Instant,
    read: &mut Instant,
    timeouts: TimeoutConfig,
)
    requires
        call_ensures(extend_deadline_at, (now, given, &timeouts), ()),
        call_ensures(
            handle_stream_activity,
            (&clock, bytes_read, stream_name, read, &timeouts),
            (),
        ),
    ensures
        old(given)@ >= timeouts.absolute_deadline@ ==> final(given)@ == old(given)@,
        old(given)@ < timeouts.absolute_deadline@ ==> {
            &&& final(given)@ <= timeouts.absolute_deadline@
            &&& final(given)@ < timeouts.absolute_deadline@ ==> {
                &&& final(given)@ >= timeouts.start_time@ + timeouts.minimum@
                &&& final(given)@ >= now@ + timeouts.activity@
            }
            &&& final(given)@ <= timeouts.start_time@ + timeouts.minimum@ || final(given)@ <= now@
                + timeouts.activity@
        },
        old(read)@ >= timeouts.absolute_deadline@ ==> final(read)@ == old(read)@,
        old(read)@ < timeouts.absolute_deadline@ ==> {
            &&& final(read)@ <= timeouts.absolute_deadline@
            &&& final(read)@ < timeouts.absolute_deadline@ ==> final(read)@ >= timeouts.start_time@
                + timeouts.minimum@
            &&& timeouts.start_time@ + timeouts.minimum@ < final(read)@
                < timeouts.absolute_deadline@ ==> clock_shows(
                clock@,
                final(read)@ - timeouts.activity@,
            )
        },
{
}

/// A read that succeeded puts its bytes behind those of its stream, the same way
/// while the command runs and when the stream is drained. One that failed leaves
/// the bytes as they are; it closes the stream only when it is drained.
pub proof fn law_taking_in_a_read(
    s: &mut StreamState,
    drained: &mut StreamState,
    chunk: Vec<u8>,
    result: Result<usize, std::io::Error>,
    r: Result<Option<usize>, std::io::Error>,
    more: bool,
)
    requires
        result matches Ok(n) ==> n <= chunk@.len(),
        *old(s) == *old(drained),
        call_ensures(StreamState::on_read, (s, &chunk, result), r),
        call_ensures(StreamState::drain_reader, (drained, &chunk, result), more),
    ensures
        final(s).buffer@ == final(drained).buffer@,
        final(s).buffer@.len() == old(s).buffer@.len() + if result is Ok {
            result->Ok_0 as int
        } else {
            0
        },
        old(s).buffer@.is_prefix_of(final(s).buffer@),
        final(s).buffer@.skip(old(s).buffer@.len() as int).is_prefix_of(chunk@),
        more <==> result is Ok && result->Ok_0 > 0,
        final(drained).open <==> old(drained).open && more,
        final(s).open <==> old(s).open && (more || result is Err),
        r is Err <==> result is Err,
        result is Err ==> r->Err_0 == result->Err_0,
        more ==> r->Ok_0 == Some(result->Ok_0),
        result is Ok && !more ==> r->Ok_0 is None,
{
    let before = old(s).buffer@;
    let after = final(s).buffer@;
    let n = if result is Ok {
        result->Ok_0 as int
    } else {
        0
    };
    assert(before =~= after.take(before.len() as int));
    assert(after.skip(before.len() as int) =~= chunk@.take(n));
}

} // verus!

//! What an event changes of a command, part by part, and what it leaves as it is.

use crate::error::{other_io_error, CommandError};
use crate::kill::{ExitStatus, TimeoutReason};
use crate::run::{launch_error, Action, Event, Phase, Pipes, RunView};
use crate::stream::{Stream, StreamView};
use crate::text::{decimal, errno_display};
use crate::timeouts::TimeoutsView;
use vstd::prelude::*;

verus! {

/// The two streams of a command are its standard output and its standard error,
/// and one can be replaced without the other.
pub proof fn law_streams_by_name(run: RunView, stream: Stream, s: StreamView)
    ensures
        run.stream(Stream::Stdout) == run.stdout,
        run.stream(Stream::Stderr) == run.stderr,
        run.with_stream(stream, s).stream(stream) == s,
        forall|other: Stream|
            other != stream ==> #[trigger] run.with_stream(stream, s).stream(other) == run.stream(
                other,
            ),
{
}

/// A command sets out running: nothing has been read from it, nothing has ended
/// it, and it may be silent for the activity timeout, or for the minimum if that
/// is longer, but not for longer than the maximum.
pub proof fn law_command_sets_out(start: int, minimum: int, maximum: int, activity: int)
    requires
        0 <= minimum <= maximum,
        activity > 0,
    ensures
        ({
            let run = RunView::launched(TimeoutsView::starting_at(start, minimum, maximum, activity));
            &&& run.wf()
            &&& run.timeouts.minimum == minimum
            &&& run.timeouts.maximum == maximum
            &&& run.timeouts.activity == activity
            &&& run.timeouts.start_time == start
            &&& run.timeouts.absolute_deadline == start + maximum
            &&& run.phase is Running
            &&& run.stdout.open && run.stdout.bytes.len() == 0
            &&& run.stderr.open && run.stderr.bytes.len() == 0
            &&& !run.timed_out
            &&& run.exit_status is None
            &&& run.ended_at is None
            &&& run.current_deadline <= start + maximum
            &&& run.current_deadline >= start + minimum
            &&& activity <= maximum ==> run.current_deadline >= start + activity
            &&& activity > maximum ==> run.current_deadline == start + maximum
            &&& run.current_deadline <= start + minimum || run.current_deadline <= start + activity
        }),
{
}

/// A command sets out if it could be spawned and both its streams can be read;
/// otherwise the first of these that fails is the error.
pub proof fn law_launch_needs_both_streams(spawned: Result<Pipes, std::io::Error>)
    ensures
        launch_error(spawned) is None <==> (spawned matches Ok(pipes) && pipes.stdout
            && pipes.stderr),
        spawned matches Err(e) ==> launch_error(spawned) == Some(CommandError::Spawn(e)),
        spawned matches Ok(pipes) && !pipes.stdout ==> launch_error(spawned) == Some(
            CommandError::StdoutPipe,
        ),
        spawned matches Ok(pipes) && pipes.stdout && !pipes.stderr ==> launch_error(spawned)
            == Some(CommandError::StderrPipe),
{
}

/// What can happen to a command depends on how far it has come: it can exit and
/// run into its deadline while it runs or is overdue, its kill can return while
/// it is being killed, and so on. A read can end that is of an open stream and
/// says of no more bytes than there are that it brought them.
pub proof fn law_what_can_happen(run: RunView)
    ensures
        forall|waited: Result<ExitStatus, std::io::Error>| #[trigger]
            run.awaits(Event::Exited(waited)) <==> run.phase == Phase::Running || run.phase
                == Phase::Overdue || run.phase == Phase::Reaping,
        forall|pid: Option<u32>| #[trigger]
            run.awaits(Event::DeadlineReached(pid)) <==> run.phase == Phase::Running || run.phase
                == Phase::Overdue,
        forall|killed: Result<(), i32>| #[trigger]
            run.awaits(Event::KillReturned(killed)) <==> run.phase is Killing,
        forall|polled: Result<Option<ExitStatus>, std::io::Error>| #[trigger]
            run.awaits(Event::Polled(polled)) <==> run.phase == Phase::Polling,
        forall|chunk: Vec<u8>, result: Result<usize, std::io::Error>| #[trigger]
            run.awaits((Event::Read { stream: Stream::Stdout, chunk, result })) <==> {
                &&& run.stdout.open
                &&& run.phase == Phase::Running || run.phase == Phase::Draining(Stream::Stdout)
                &&& result is Err || result->Ok_0 <= chunk@.len()
            },
        forall|chunk: Vec<u8>, result: Result<usize, std::io::Error>| #[trigger]
            run.awaits((Event::Read { stream: Stream::Stderr, chunk, result })) <==> {
                &&& run.stderr.open
                &&& run.phase == Phase::Running || run.phase == Phase::Draining(Stream::Stderr)
                &&& result is Err || result->Ok_0 <= chunk@.len()
            },
{
}

/// A read adds to its stream the bytes that it brought. Nothing else adds to what
/// was captured, and nothing takes away from it.
pub proof fn law_only_reads_add_bytes(run: RunView, now: int, event: Event, stream: Stream)
    requires
        run.awaits(event),
    ensures
        run.stream(stream).bytes.is_prefix_of(run.next(now, event).stream(stream).bytes),
        match event {
            Event::Read { stream: from, chunk, result: Ok(n) } if from == stream => {
                let added = run.next(now, event).stream(stream).bytes.skip(
                    run.stream(stream).bytes.len() as int,
                );
                added.len() == n && added.is_prefix_of(chunk@)
            },
            _ => run.next(now, event).stream(stream).bytes.len() == run.stream(stream).bytes.len(),
        },
{
    let before = run.stream(stream).bytes;
    let after = run.next(now, event).stream(stream).bytes;
    assert(before =~= after.take(before.len() as int));
    match event {
        Event::Read { stream: from, chunk, result: Ok(n) } if from == stream => {
            assert(after.skip(before.len() as int) =~= chunk@.take(n as int));
        },
        _ => {},
    }
}

/// An open stream is closed by a read from that very stream, one that brought no
/// bytes or, once the command is over, one that failed; and by nothing else. No
/// stream is opened again.
pub proof fn law_only_its_end_closes_a_stream(run: RunView, now: int, event: Event, stream: Stream)
    requires
        run.awaits(event),
    ensures
        run.next(now, event).stream(stream).open ==> run.stream(stream).open,
        match event {
            Event::Read { stream: from, chunk: _, result } if from == stream => match result {
                Ok(n) => run.next(now, event).stream(stream).open <==> n > 0,
                Err(_) => run.next(now, event).stream(stream).open <==> run.phase is Running,
            },
            _ => run.next(now, event).stream(stream).open == run.stream(stream).open,
        },
{
}

/// The status of a command is the one that waiting for it gave, or looking at it;
/// nothing else changes it.
pub proof fn law_status_is_the_one_given(run: RunView, now: int, event: Event)
    requires
        run.awaits(event),
    ensures
        event matches Event::Exited(Ok(status)) ==> run.next(now, event).exit_status == Some(status),
        event matches Event::Polled(Ok(Some(status))) ==> run.next(now, event).exit_status == Some(
            status,
        ),
        !(event matches Event::Exited(Ok(_))) && !(event matches Event::Polled(Ok(Some(_))))
            ==> run.next(now, event).exit_status == run.exit_status,
{
}

/// A command has timed out from when its group was killed, or from when it was
/// still there although its group could not be killed. Nothing else makes it a
/// timeout, and nothing undoes it.
pub proof fn law_timed_out_by_the_kill(run: RunView, now: int, event: Event)
    requires
        run.awaits(event),
    ensures
        run.timed_out ==> run.next(now, event).timed_out,
        event matches Event::KillReturned(Ok(_)) ==> run.next(now, event).timed_out,
        event matches Event::Polled(Ok(None)) ==> run.next(now, event).timed_out,
        run.next(now, event).timed_out && !run.timed_out ==> (event matches Event::KillReturned(
            Ok(_),
        )) || (event matches Event::Polled(Ok(None))),
{
}

/// A command ran until it was found to have exited or was killed: that event, and
/// no other, sets the end, and sets it to when it happens.
pub proof fn law_end_is_when_it_happens(run: RunView, now: int, event: Event)
    requires
        run.wf(),
        run.awaits(event),
    ensures
        event matches Event::KillReturned(Ok(_)) ==> run.next(now, event).ended_at == Some(now),
        event matches Event::Polled(Ok(_)) ==> run.next(now, event).ended_at == Some(now),
        (event matches Event::Exited(Ok(_))) && run.ended_at is None ==> run.next(
            now,
            event,
        ).ended_at == Some(now),
        run.ended_at is Some ==> run.next(now, event).ended_at == run.ended_at,
        run.next(now, event).ended_at is Some && run.ended_at is None ==> (
        event matches Event::KillReturned(Ok(_))) || (event matches Event::Polled(Ok(_))) || (
        event matches Event::Exited(Ok(_))),
{
}

/// Only output of the running command moves its deadline. A deadline that has
/// come up to the maximum stays there. Any other is moved to the activity
/// timeout from now, but not before the minimum has passed and not beyond the
/// maximum.
pub proof fn law_only_output_moves_the_deadline(run: RunView, now: int, event: Event)
    requires
        run.wf(),
        run.awaits(event),
    ensures
        ({
            let start = run.timeouts.start_time;
            let deadline = run.next(now, event).current_deadline;
            let said_something = event matches Event::Read { stream: _, chunk: _, result: Ok(n) }
                && n > 0;
            if run.phase is Running && said_something && run.current_deadline < start
                + run.timeouts.maximum {
                &&& start + run.timeouts.minimum <= deadline <= start + run.timeouts.maximum
                &&& deadline < start + run.timeouts.maximum ==> deadline >= now
                    + run.timeouts.activity
                &&& deadline <= start + run.timeouts.minimum || deadline <= now
                    + run.timeouts.activity
            } else {
                deadline == run.current_deadline
            }
        }),
        run.next(now, event).timeouts == run.timeouts,
{
}

/// The running command that is read from before the maximum has passed runs on,
/// however much has been read and whichever stream it came from: all there is to
/// do is to await what happens next. From the maximum on it is overdue.
pub proof fn law_reading_goes_on_until_the_maximum(
    run: RunView,
    now: int,
    stream: Stream,
    chunk: Vec<u8>,
    n: usize,
    action: Action,
)
    requires
        run.wf(),
        run.phase is Running,
        run.awaits((Event::Read { stream, chunk, result: Ok(n) })),
    ensures
        ({
            let event = Event::Read { stream, chunk, result: Ok(n) };
            &&& run.error_on(event) is None
            &&& now < run.timeouts.start_time + run.timeouts.maximum ==> run.next(now, event).phase
                == Phase::Running && (run.next(now, event).calls_for(now, action) <==> action
                == Action::AwaitEvent)
            &&& now >= run.timeouts.start_time + run.timeouts.maximum ==> run.next(now, event).phase
                == Phase::Overdue && (run.next(now, event).calls_for(now, action) <==> action
                == Action::DeadlinePassed)
        }),
{
}

/// A deadline that is reached leads to the kill of the group that the process
/// leads; a process without an identifier can only be looked at. Nothing else of
/// the command changes.
pub proof fn law_deadline_leads_to_the_kill(run: RunView, now: int, pid: Option<u32>)
    requires
        run.awaits(Event::DeadlineReached(pid)),
    ensures
        run.error_on(Event::DeadlineReached(pid)) is None,
        run.next(now, Event::DeadlineReached(pid)) == (RunView {
            phase: if pid is Some {
                Phase::Killing(pid->Some_0)
            } else {
                Phase::Polling
            },
            ..run
        }),
{
}

/// A group that is not there is no error: its process is looked at instead. The
/// error number for it is 3. Nothing else of the command changes.
pub proof fn law_missing_group_is_looked_into(run: RunView, now: int)
    requires
        run.phase is Killing,
    ensures
        run.error_on(Event::KillReturned(Err(3))) is None,
        run.next(now, Event::KillReturned(Err(3))) == (RunView { phase: Phase::Polling, ..run }),
{
}

/// Once the command is over, its standard output is read until it is closed, then
/// its standard error, then its exit is awaited if the command was killed and its
/// status is not known. Whether that wait succeeds or fails, it is the last thing
/// to do.
pub proof fn law_what_is_left_to_do(run: RunView, now: int, event: Event)
    requires
        run.wf(),
        run.awaits(event),
        run.next(now, event).ended_at is Some,
    ensures
        ({
            let next = run.next(now, event);
            &&& next.phase == Phase::Draining(Stream::Stdout) <==> next.stdout.open
            &&& next.phase == Phase::Draining(Stream::Stderr) <==> !next.stdout.open
                && next.stderr.open
            &&& next.phase == Phase::Reaping <==> !next.stdout.open && !next.stderr.open
                && next.timed_out && next.exit_status is None && !(event is Exited)
            &&& next.phase == Phase::Finished <==> !next.stdout.open && !next.stderr.open && (
            next.exit_status is Some || event is Exited)
        }),
{
}

/// The errors that end a command: that waiting for it fails while it runs, that
/// reading from it fails while it runs, that its group is there and cannot be
/// killed, and that looking at it fails. Nothing else does.
pub proof fn law_what_is_an_error(run: RunView, event: Event)
    requires
        run.wf(),
        run.awaits(event),
    ensures
        match event {
            Event::Exited(Err(e)) => run.error_on(event) == if run.ended_at is None {
                Some(CommandError::Wait(e))
            } else {
                None
            },
            Event::Read { stream: _, chunk: _, result: Err(e) } => run.error_on(event)
                == if run.ended_at is None {
                Some(CommandError::Io(e))
            } else {
                None
            },
            Event::Polled(Err(e)) => run.error_on(event) == Some(CommandError::Wait(e)),
            Event::KillReturned(Err(code)) => if code == 3 {
                run.error_on(event) is None
            } else {
                run.phase matches Phase::Killing(pid) && run.error_on(event) == Some(
                    CommandError::Kill(
                        other_io_error(
                            "Failed to kill process group for PID "@ + decimal(pid as nat) + ": "@
                                + errno_display(code),
                        ),
                    ),
                )
            },
            _ => run.error_on(event) is None,
        },
{
}

/// An error gives the command up and changes nothing else of it; without one the
/// command is not given up.
pub proof fn law_error_gives_the_command_up(run: RunView, now: int, event: Event)
    requires
        run.awaits(event),
    ensures
        run.error_on(event) is Some ==> run.next(now, event) == (RunView {
            phase: Phase::Failed,
            ..run
        }),
        run.error_on(event) is None ==> !(run.next(now, event).phase is Failed),
{
}

/// How far the command has come decides what to do for it, and there is exactly
/// one thing to do; for a command that was given up there is none. (The kill
/// differs from command to command: see [`law_what_a_kill_is_reported_with`].)
pub proof fn law_what_to_do(run: RunView, now: int, action: Action)
    requires
        !(run.phase is Killing),
    ensures
        run.calls_for(now, action) <==> match run.phase {
            Phase::Running => action == Action::AwaitEvent,
            Phase::Overdue => action == Action::DeadlinePassed,
            Phase::Polling => action == Action::PollChild,
            Phase::Draining(Stream::Stdout) => action == Action::DrainStream(Stream::Stdout),
            Phase::Draining(Stream::Stderr) => action == Action::DrainStream(Stream::Stderr),
            Phase::Reaping => action == Action::AwaitExit,
            Phase::Finished => action == Action::Finish,
            _ => false,
        },
{
}

/// What a kill is reported with: the group of the process that is killed, and
/// the maximum as the reason if it has passed, or else the silence, with the
/// deadline that goes with it and the time since the start.
pub proof fn law_what_a_kill_is_reported_with(run: RunView, now: int, action: Action)
    requires
        run.wf(),
        run.phase is Killing,
    ensures
        run.calls_for(now, action) <==> {
            &&& action matches Action::KillGroup { pgid, report }
            &&& (pgid - run.phase->Killing_0) % 0x1_0000_0000 == 0
            &&& report.reason == TimeoutReason::Maximum <==> now >= run.timeouts.start_time
                + run.timeouts.maximum
            &&& report.triggered_deadline@ == if report.reason == TimeoutReason::Maximum {
                run.timeouts.start_time + run.timeouts.maximum
            } else {
                run.current_deadline
            }
            &&& now >= run.timeouts.start_time ==> run.timeouts.start_time + report.elapsed@ == now
            &&& now <= run.timeouts.start_time ==> report.elapsed@ == 0
        },
{
}

/// Whether two commands differ at most in the bytes that were captured from them.
pub open spec fn same_but_for_bytes(a: RunView, b: RunView) -> bool {
    &&& a.timeouts == b.timeouts
    &&& a.phase == b.phase
    &&& a.stdout.open == b.stdout.open
    &&& a.stderr.open == b.stderr.open
    &&& a.current_deadline == b.current_deadline
    &&& a.timed_out == b.timed_out
    &&& a.exit_status == b.exit_status
    &&& a.ended_at == b.ended_at
}

/// What a command has written has no bearing on what becomes of it: two commands
/// that differ in nothing else fare alike, whatever happens to both.
pub proof fn law_captured_bytes_do_not_matter(
    a: RunView,
    b: RunView,
    now: int,
    event: Event,
    action: Action,
)
    requires
        same_but_for_bytes(a, b),
    ensures
        a.wf() == b.wf(),
        a.awaits(event) == b.awaits(event),
        a.error_on(event) == b.error_on(event),
        a.calls_for(now, action) == b.calls_for(now, action),
        same_but_for_bytes(a.next(now, event), b.next(now, event)),
{
}

/// What a read brings has no bearing on what becomes of the command, and neither
/// has how much it brings, as long as it brings something.
pub proof fn law_bytes_read_do_not_matter(
    run: RunView,
    now: int,
    stream: Stream,
    chunk: Vec<u8>,
    n: usize,
    other_chunk: Vec<u8>,
    m: usize,
)
    requires
        (n == 0) == (m == 0),
    ensures
        same_but_for_bytes(
            run.next(now, (Event::Read { stream, chunk, result: Ok(n) })),
            run.next(now, (Event::Read { stream, chunk: other_chunk, result: Ok(m) })),
        ),
{
}

/// Which status a command ends with has no bearing on anything else.
pub proof fn law_status_does_not_matter(run: RunView, now: int, a: ExitStatus, b: ExitStatus)
    ensures
        run.next(now, Event::Exited(Ok(b))) == (RunView {
            exit_status: Some(b),
            ..run.next(now, Event::Exited(Ok(a)))
        }),
        run.next(now, Event::Polled(Ok(Some(b)))) == (RunView {
            exit_status: Some(b),
            ..run.next(now, Event::Polled(Ok(Some(a))))
        }),
{
}

/// The command with all that is known of when things happened moved by `d`.
pub open spec fn moved(run: RunView, d: int) -> RunView {
    RunView {
        timeouts: TimeoutsView {
            start_time: run.timeouts.start_time + d,
            absolute_deadline: run.timeouts.absolute_deadline + d,
            ..run.timeouts
        },
        current_deadline: run.current_deadline + d,
        ended_at: match run.ended_at {
            Some(t) => Some(t + d),
            None => None,
        },
        ..run
    }
}

/// When a command is started has no bearing on how it fares: what happens to it
/// that much later leaves it as it would have been, that much later.
pub proof fn law_start_does_not_matter(run: RunView, now: int, event: Event, d: int)
    ensures
        moved(run, d).wf() == run.wf(),
        moved(run, d).awaits(event) == run.awaits(event),
        moved(run, d).error_on(event) == run.error_on(event),
        moved(run, d).next(now + d, event) == moved(run.next(now, event), d),
        moved(RunView::launched(run.timeouts), d) == RunView::launched(
            moved(run, d).timeouts,
        ),
{
}

} // verus!

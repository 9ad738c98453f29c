//! What holds of every command, whatever happens to it and whenever.

use crate::error::{kill_failure, other_io_error, CommandError};
use crate::kill::{elapsed_between, ExitStatus, ESRCH};
use crate::run::{Action, Event, Phase, RunView};
use crate::stream::Stream;
use crate::text::errno_display;
use crate::timeouts::{earlier, later, TimeoutsView};
use vstd::prelude::*;

verus! {

/// An event and when it happens.
pub struct Step {
    pub now: int,
    pub event: Event,
}

/// The command to which all of `trace` has happened.
pub open spec fn run_after(run: RunView, trace: Seq<Step>) -> RunView
    decreases trace.len(),
{
    if trace.len() == 0 {
        run
    } else {
        run_after(run, trace.drop_last()).next(trace.last().now, trace.last().event)
    }
}

/// Whether each event of `trace` can happen when its turn comes.
pub open spec fn possible(run: RunView, trace: Seq<Step>) -> bool
    decreases trace.len(),
{
    trace.len() > 0 ==> {
        &&& possible(run, trace.drop_last())
        &&& run_after(run, trace.drop_last()).awaits(trace.last().event)
    }
}

/// The time of the last event, `start` if there is none.
pub open spec fn last_time(start: int, trace: Seq<Step>) -> int {
    if trace.len() == 0 {
        start
    } else {
        trace.last().now
    }
}

/// Whether time does not run backwards, from `start` on.
pub open spec fn in_order(start: int, trace: Seq<Step>) -> bool
    decreases trace.len(),
{
    trace.len() > 0 ==> {
        &&& in_order(start, trace.drop_last())
        &&& last_time(start, trace.drop_last()) <= trace.last().now
    }
}

/// Whether the deadline is never said to have passed before it has.
pub open spec fn punctual(run: RunView, trace: Seq<Step>) -> bool
    decreases trace.len(),
{
    trace.len() > 0 ==> {
        &&& punctual(run, trace.drop_last())
        &&& trace.last().event is DeadlineReached ==> trace.last().now >= run_after(
            run,
            trace.drop_last(),
        ).current_deadline
    }
}

/// The bytes that `event` brings from `stream`.
pub open spec fn bytes_of(event: Event, stream: Stream) -> Seq<u8> {
    match event {
        Event::Read { stream: from, chunk, result: Ok(n) } if from == stream => chunk@.take(
            n as int,
        ),
        _ => Seq::empty(),
    }
}

/// The bytes that `trace` brings from `stream`, in order.
pub open spec fn bytes_read(trace: Seq<Step>, stream: Stream) -> Seq<u8>
    decreases trace.len(),
{
    if trace.len() == 0 {
        Seq::empty()
    } else {
        bytes_read(trace.drop_last(), stream) + bytes_of(trace.last().event, stream)
    }
}

/// Whether `event` is output.
pub open spec fn is_output(event: Event) -> bool {
    event matches Event::Read { result: Ok(n), .. } && n > 0
}

/// When the command last said something while it ran, if it did.
pub open spec fn last_activity(run: RunView, trace: Seq<Step>) -> Option<int>
    decreases trace.len(),
{
    if trace.len() == 0 {
        None
    } else if run_after(run, trace.drop_last()).phase is Running && is_output(trace.last().event) {
        Some(trace.last().now)
    } else {
        last_activity(run, trace.drop_last())
    }
}

/// When a command is to be killed that said something at `spoke` and has been
/// silent since; `None` if it has never said anything.
pub open spec fn deadline_given(timeouts: TimeoutsView, spoke: Option<int>) -> int {
    if later(timeouts.minimum, timeouts.activity) >= timeouts.maximum {
        timeouts.absolute_deadline
    } else {
        match spoke {
            None => timeouts.start_time + later(timeouts.minimum, timeouts.activity),
            Some(t) => earlier(
                timeouts.absolute_deadline,
                later(timeouts.start_time + timeouts.minimum, t + timeouts.activity),
            ),
        }
    }
}

/// An event keeps the invariant of a command.
pub proof fn law_next_keeps_invariant(run: RunView, now: int, event: Event)
    requires
        run.wf(),
        run.awaits(event),
    ensures
        run.next(now, event).wf(),
        run.next(now, event).timeouts == run.timeouts,
{
}

/// A command never leaves its invariant, and its timeouts do not change.
pub proof fn law_invariant_holds_throughout(run: RunView, trace: Seq<Step>)
    requires
        run.wf(),
        possible(run, trace),
    ensures
        run_after(run, trace).wf(),
        run_after(run, trace).timeouts == run.timeouts,
    decreases trace.len(),
{
    if trace.len() > 0 {
        law_invariant_holds_throughout(run, trace.drop_last());
        law_next_keeps_invariant(
            run_after(run, trace.drop_last()),
            trace.last().now,
            trace.last().event,
        );
    }
}

/// No output moves the deadline beyond the absolute deadline.
pub proof fn law_deadline_within_maximum(timeouts: TimeoutsView, trace: Seq<Step>)
    requires
        timeouts.wf(),
        possible(RunView::launched(timeouts), trace),
    ensures
        run_after(RunView::launched(timeouts), trace).current_deadline <= timeouts.start_time
            + timeouts.maximum,
{
    law_invariant_holds_throughout(RunView::launched(timeouts), trace);
}

/// A read that ends at or past the absolute deadline is the last one before the
/// timeout: the command is overdue, the caller is told that its deadline has
/// passed, and of what can happen next nothing is a read and nothing leaves the
/// command as it is.
pub proof fn law_no_reading_past_maximum(
    run: RunView,
    now: int,
    event: Event,
    action: Action,
    later_now: int,
    next_event: Event,
)
    requires
        run.wf(),
        run.phase is Running,
        run.awaits(event),
        event is Read,
        run.error_on(event) is None,
        now >= run.timeouts.start_time + run.timeouts.maximum,
    ensures
        run.next(now, event).phase is Overdue,
        run.next(now, event).calls_for(now, action) ==> action is DeadlinePassed,
        run.next(now, event).awaits(next_event) ==> next_event is Exited
            || next_event is DeadlineReached,
        run.next(now, event).awaits(next_event) ==> !(run.next(now, event).next(
            later_now,
            next_event,
        ).phase is Overdue) && !(run.next(now, event).next(
            later_now,
            next_event,
        ).phase is Running),
{
}

/// Output, however much of it there is, does not put the maximum off: a command
/// that runs on after an event has not come to the maximum at the event.
pub proof fn law_runs_on_only_before_maximum(timeouts: TimeoutsView, trace: Seq<Step>)
    requires
        timeouts.wf(),
        possible(RunView::launched(timeouts), trace),
        trace.len() > 0,
        run_after(RunView::launched(timeouts), trace).phase is Running,
    ensures
        trace.last().now < timeouts.start_time + timeouts.maximum,
{
    law_invariant_holds_throughout(RunView::launched(timeouts), trace.drop_last());
}

/// What has been captured from a stream is what was read from it, byte for byte
/// and in order: before the command was over and after, whether it was killed or
/// exited by itself, whether or not an error came up.
pub proof fn law_capture_is_what_was_read(timeouts: TimeoutsView, trace: Seq<Step>, stream: Stream)
    requires
        possible(RunView::launched(timeouts), trace),
    ensures
        run_after(RunView::launched(timeouts), trace).stream(stream).bytes == bytes_read(
            trace,
            stream,
        ),
    decreases trace.len(),
{
    if trace.len() > 0 {
        law_capture_is_what_was_read(timeouts, trace.drop_last(), stream);
        let before = run_after(RunView::launched(timeouts), trace.drop_last());
        let event = trace.last().event;
        assert(before.next(trace.last().now, event).stream(stream).bytes =~= before.stream(
            stream,
        ).bytes + bytes_of(event, stream));
    }
}

/// A stream that has ended stays as it is.
pub proof fn law_ended_stream_stays(run: RunView, now: int, event: Event, stream: Stream)
    requires
        run.awaits(event),
        !run.stream(stream).open,
    ensures
        run.next(now, event).stream(stream) == run.stream(stream),
{
}

/// The deadline depends on when the command last said something, and on nothing
/// else that has happened to it.
pub proof fn law_deadline_follows_last_activity(timeouts: TimeoutsView, trace: Seq<Step>)
    requires
        timeouts.wf(),
        possible(RunView::launched(timeouts), trace),
        in_order(timeouts.start_time, trace),
    ensures
        run_after(RunView::launched(timeouts), trace).current_deadline == deadline_given(
            timeouts,
            last_activity(RunView::launched(timeouts), trace),
        ),
        last_activity(RunView::launched(timeouts), trace) matches Some(t) ==> timeouts.start_time
            <= t <= last_time(timeouts.start_time, trace),
        timeouts.start_time <= last_time(timeouts.start_time, trace),
    decreases trace.len(),
{
    let run = RunView::launched(timeouts);
    if trace.len() > 0 {
        law_deadline_follows_last_activity(timeouts, trace.drop_last());
        law_invariant_holds_throughout(run, trace.drop_last());
    }
}

/// Output before the absolute deadline leaves the command some time.
pub proof fn law_output_buys_time(run: RunView, now: int, event: Event)
    requires
        run.wf(),
        run.awaits(event),
        run.phase is Running,
        is_output(event),
        now < run.timeouts.absolute_deadline,
    ensures
        run.next(now, event).current_deadline > now,
{
}

/// No event brings the deadline forward.
pub proof fn law_deadline_is_not_brought_forward(timeouts: TimeoutsView, trace: Seq<Step>)
    requires
        timeouts.wf(),
        possible(RunView::launched(timeouts), trace),
        in_order(timeouts.start_time, trace),
        trace.len() > 0,
    ensures
        run_after(RunView::launched(timeouts), trace.drop_last()).current_deadline <= run_after(
            RunView::launched(timeouts),
            trace,
        ).current_deadline,
{
    law_deadline_follows_last_activity(timeouts, trace);
    law_deadline_follows_last_activity(timeouts, trace.drop_last());
}

/// Whether a timeout has struck the command, and it has not turned out that the
/// command had exited before.
pub open spec fn struck(run: RunView) -> bool {
    run.timed_out || run.phase is Killing || run.phase is Polling
}

/// A command that is struck by a timeout has come to its deadline.
proof fn lemma_struck_after_deadline(timeouts: TimeoutsView, trace: Seq<Step>)
    requires
        timeouts.wf(),
        possible(RunView::launched(timeouts), trace),
        in_order(timeouts.start_time, trace),
        punctual(RunView::launched(timeouts), trace),
        struck(run_after(RunView::launched(timeouts), trace)),
    ensures
        last_time(timeouts.start_time, trace) >= run_after(
            RunView::launched(timeouts),
            trace,
        ).current_deadline,
        run_after(RunView::launched(timeouts), trace).ended_at matches Some(t) ==> t >= run_after(
            RunView::launched(timeouts),
            trace,
        ).current_deadline,
    decreases trace.len(),
{
    let run = RunView::launched(timeouts);
    if trace.len() > 0 {
        law_invariant_holds_throughout(run, trace.drop_last());
        if struck(run_after(run, trace.drop_last())) {
            lemma_struck_after_deadline(timeouts, trace.drop_last());
        }
    }
}

/// A command that has timed out, by a timer that does not go off early, has been
/// granted what the timeouts grant before it was killed: it has run for the
/// maximum time, or it has been silent for the activity timeout since it last
/// said something, and has run for the minimum.
pub proof fn law_timed_out_only_after_deadline(timeouts: TimeoutsView, trace: Seq<Step>)
    requires
        timeouts.wf(),
        possible(RunView::launched(timeouts), trace),
        in_order(timeouts.start_time, trace),
        punctual(RunView::launched(timeouts), trace),
        run_after(RunView::launched(timeouts), trace).timed_out,
    ensures
        run_after(RunView::launched(timeouts), trace).ended_at matches Some(end) && end
            >= deadline_given(timeouts, last_activity(RunView::launched(timeouts), trace)),
        run_after(RunView::launched(timeouts), trace).ended_at matches Some(end) && elapsed_between(
            timeouts.start_time,
            end,
        ) >= earlier(timeouts.maximum, later(timeouts.minimum, timeouts.activity)),
{
    law_invariant_holds_throughout(RunView::launched(timeouts), trace);
    law_deadline_follows_last_activity(timeouts, trace);
    lemma_struck_after_deadline(timeouts, trace);
}

/// A command that has timed out has run for at least the minimum time.
pub proof fn law_minimum_is_granted(timeouts: TimeoutsView, trace: Seq<Step>)
    requires
        timeouts.wf(),
        possible(RunView::launched(timeouts), trace),
        in_order(timeouts.start_time, trace),
        punctual(RunView::launched(timeouts), trace),
        run_after(RunView::launched(timeouts), trace).timed_out,
    ensures
        run_after(RunView::launched(timeouts), trace).ended_at matches Some(end) && elapsed_between(
            timeouts.start_time,
            end,
        ) >= timeouts.minimum,
{
    law_timed_out_only_after_deadline(timeouts, trace);
}

/// What happens to a command after it has exited or was killed does not count
/// toward how long it ran.
pub proof fn law_end_is_kept(run: RunView, now: int, event: Event)
    requires
        run.wf(),
        run.awaits(event),
        run.ended_at is Some,
    ensures
        run.next(now, event).ended_at == run.ended_at,
{
}

/// A command that is found to have exited while it ran ran until then.
pub proof fn law_exit_ends_the_run(run: RunView, now: int, status: ExitStatus)
    requires
        run.wf(),
        run.phase is Running || run.phase is Overdue,
    ensures
        run.next(now, Event::Exited(Ok(status))).ended_at == Some(now),
        run.next(now, Event::Exited(Ok(status))).exit_status == Some(status),
        !run.next(now, Event::Exited(Ok(status))).timed_out,
{
}

/// What looking at a command comes to whose group could not be killed.
pub open spec fn poll_outcome(
    run: RunView,
    now: int,
    poll: Result<Option<ExitStatus>, std::io::Error>,
    polling: RunView,
) -> bool {
    &&& polling.awaits(Event::Polled(poll))
    &&& polling.calls_for(now, Action::PollChild)
    &&& match poll {
        Ok(Some(status)) => {
            &&& polling.error_on(Event::Polled(poll)) is None
            &&& polling.next(now, Event::Polled(poll)) == run.exited_with(now, status)
            &&& !run.exited_with(now, status).timed_out
        },
        Ok(None) => {
            &&& polling.error_on(Event::Polled(poll)) is None
            &&& polling.next(now, Event::Polled(poll)) == run.killed(now)
        },
        Err(e) => polling.error_on(Event::Polled(poll)) == Some(CommandError::Wait(e)),
    }
}

/// A command whose deadline is reached ends in one of three ways. It has exited
/// before: its group was gone when it was to be killed, or could not be named,
/// and looking at it gave its status; then it has not timed out. It has timed
/// out: its group was killed, or it was still there when it was looked at. Or it
/// fails, because the kill was refused or looking at the command failed.
pub proof fn law_timeout_outcome(
    run: RunView,
    times: (int, int, int),
    pid: u32,
    kill: Result<(), i32>,
    poll: Result<Option<ExitStatus>, std::io::Error>,
)
    requires
        run.wf(),
        run.phase is Running || run.phase is Overdue,
    ensures
        run.killed(times.1).timed_out,
        poll_outcome(run, times.2, poll, run.next(times.0, Event::DeadlineReached(None))),
        ({
            let killing = run.next(times.0, Event::DeadlineReached(Some(pid)));
            let polling = killing.next(times.1, Event::KillReturned(kill));
            &&& killing.awaits(Event::KillReturned(kill))
            &&& match kill {
                Ok(_) => polling == run.killed(times.1),
                Err(code) => if code != ESRCH {
                    killing.error_on(Event::KillReturned(kill)) == Some(
                        CommandError::Kill(
                            other_io_error(kill_failure(pid, errno_display(code))),
                        ),
                    )
                } else {
                    &&& killing.error_on(Event::KillReturned(kill)) is None
                    &&& poll_outcome(run, times.2, poll, polling)
                },
            }
        }),
{
}

/// A command times out only if its deadline was reached.
pub proof fn law_no_timeout_without_deadline(timeouts: TimeoutsView, trace: Seq<Step>)
    requires
        possible(RunView::launched(timeouts), trace),
        forall|i: int| 0 <= i < trace.len() ==> !(#[trigger] trace[i].event is DeadlineReached),
    ensures
        !run_after(RunView::launched(timeouts), trace).timed_out,
        !struck(run_after(RunView::launched(timeouts), trace)),
    decreases trace.len(),
{
    if trace.len() > 0 {
        assert forall|i: int| 0 <= i < trace.drop_last().len() implies !(
        #[trigger] trace.drop_last()[i].event is DeadlineReached) by {
            assert(trace.drop_last()[i] == trace[i]);
        }
        law_no_timeout_without_deadline(timeouts, trace.drop_last());
        assert(!(trace[trace.len() - 1].event is DeadlineReached));
    }
}

/// How far a phase lies along the way of a command.
pub open spec fn stage(phase: Phase) -> int {
    match phase {
        Phase::Running => 0,
        Phase::Overdue => 1,
        Phase::Killing(_) => 2,
        Phase::Polling => 3,
        Phase::Draining(Stream::Stdout) => 4,
        Phase::Draining(Stream::Stderr) => 5,
        Phase::Reaping => 6,
        Phase::Finished => 7,
        Phase::Failed => 8,
    }
}

/// A command never goes back: every event takes it further or leaves it where it
/// is, and only reads can leave it where it is.
pub proof fn law_command_never_goes_back(run: RunView, now: int, event: Event)
    requires
        run.wf(),
        run.awaits(event),
    ensures
        stage(run.phase) <= stage(run.next(now, event).phase),
        run.next(now, event).phase == run.phase ==> event is Read,
{
}

/// Once the command is over, nothing that happens to it is an error: what could
/// be gathered is reported.
pub proof fn law_no_error_once_over(run: RunView, event: Event)
    requires
        run.awaits(event),
        run.phase is Draining || run.phase is Reaping,
    ensures
        run.error_on(event) is None,
{
}

/// Whether `event` tells that the command ended with `status`.
pub open spec fn tells_status(event: Event, status: ExitStatus) -> bool {
    event == Event::Exited(Ok(status)) || event == Event::Polled(Ok(Some(status)))
}

/// A reported status is one that the system gave.
pub proof fn law_status_was_given(timeouts: TimeoutsView, trace: Seq<Step>)
    requires
        possible(RunView::launched(timeouts), trace),
    ensures
        run_after(RunView::launched(timeouts), trace).exit_status matches Some(status) ==> exists|
            i: int,
        |
            0 <= i < trace.len() && tells_status(#[trigger] trace[i].event, status),
    decreases trace.len(),
{
    let run = RunView::launched(timeouts);
    if trace.len() > 0 {
        law_status_was_given(timeouts, trace.drop_last());
        let before = run_after(run, trace.drop_last());
        let after = run_after(run, trace);
        if after.exit_status is Some {
            if after.exit_status == before.exit_status {
                let i = choose|i: int|
                    0 <= i < trace.drop_last().len() && tells_status(
                        #[trigger] trace.drop_last()[i].event,
                        after.exit_status->0,
                    );
                assert(trace[i].event == trace.drop_last()[i].event);
            } else {
                assert(tells_status(trace[trace.len() - 1].event, after.exit_status->0));
            }
        }
    }
}

/// Whether `event` is the end of `stream`: a read from it that brought nothing, or
/// that failed.
pub open spec fn ends_stream(event: Event, stream: Stream) -> bool {
    event matches Event::Read { stream: from, chunk: _, result } && from == stream && (
    result is Err || result->Ok_0 == 0)
}

/// A stream is closed only once its own end has been seen. So a command is not
/// finished before the ends of both its streams have been seen, however it came
/// to its end.
pub proof fn law_finished_only_at_the_end_of_both_streams(
    timeouts: TimeoutsView,
    trace: Seq<Step>,
    stream: Stream,
)
    requires
        timeouts.wf(),
        possible(RunView::launched(timeouts), trace),
    ensures
        run_after(RunView::launched(timeouts), trace).phase is Finished || !run_after(
            RunView::launched(timeouts),
            trace,
        ).stream(stream).open ==> exists|i: int|
            0 <= i < trace.len() && ends_stream(#[trigger] trace[i].event, stream),
    decreases trace.len(),
{
    let run = RunView::launched(timeouts);
    law_invariant_holds_throughout(run, trace);
    if trace.len() > 0 && !run_after(run, trace).stream(stream).open {
        law_finished_only_at_the_end_of_both_streams(timeouts, trace.drop_last(), stream);
        if run_after(run, trace.drop_last()).stream(stream).open {
            assert(ends_stream(trace[trace.len() - 1].event, stream));
        } else {
            let i = choose|i: int|
                0 <= i < trace.drop_last().len() && ends_stream(
                    #[trigger] trace.drop_last()[i].event,
                    stream,
                );
            assert(trace[i].event == trace.drop_last()[i].event);
        }
    }
}

/// A stream is read from until its end: as long as it has not been seen, the
/// stream is open.
pub proof fn law_stream_is_open_until_its_end(
    timeouts: TimeoutsView,
    trace: Seq<Step>,
    stream: Stream,
)
    requires
        possible(RunView::launched(timeouts), trace),
        forall|i: int| 0 <= i < trace.len() ==> !ends_stream(#[trigger] trace[i].event, stream),
    ensures
        run_after(RunView::launched(timeouts), trace).stream(stream).open,
    decreases trace.len(),
{
    if trace.len() > 0 {
        assert forall|i: int| 0 <= i < trace.drop_last().len() implies !ends_stream(
            #[trigger] trace.drop_last()[i].event,
            stream,
        ) by {
            assert(trace.drop_last()[i] == trace[i]);
        }
        law_stream_is_open_until_its_end(timeouts, trace.drop_last(), stream);
        assert(!ends_stream(trace[trace.len() - 1].event, stream));
    }
}

/// A command runs on as long as nothing happens to it but reads that succeed
/// before the maximum has passed, however many they are and whatever they bring.
pub proof fn law_reads_leave_the_command_running(timeouts: TimeoutsView, trace: Seq<Step>)
    requires
        timeouts.wf(),
        possible(RunView::launched(timeouts), trace),
        forall|i: int|
            0 <= i < trace.len() ==> (#[trigger] trace[i]).now < timeouts.start_time
                + timeouts.maximum && (trace[i].event matches Event::Read {
                stream: _,
                chunk: _,
                result: Ok(_),
            }),
    ensures
        run_after(RunView::launched(timeouts), trace).phase == Phase::Running,
    decreases trace.len(),
{
    if trace.len() > 0 {
        assert forall|i: int| 0 <= i < trace.drop_last().len() implies (
        #[trigger] trace.drop_last()[i]).now < timeouts.start_time + timeouts.maximum && (
        trace.drop_last()[i].event matches Event::Read { stream: _, chunk: _, result: Ok(_) }) by {
            assert(trace.drop_last()[i] == trace[i]);
        }
        law_reads_leave_the_command_running(timeouts, trace.drop_last());
        law_invariant_holds_throughout(RunView::launched(timeouts), trace.drop_last());
        assert(trace[trace.len() - 1] == trace.last());
    }
}

/// The status of a finished command is unknown only if it was killed and the wait
/// for it failed, and that was the last that happened to it.
pub proof fn law_status_is_unknown_only_if_the_wait_failed(
    timeouts: TimeoutsView,
    trace: Seq<Step>,
)
    requires
        timeouts.wf(),
        possible(RunView::launched(timeouts), trace),
        run_after(RunView::launched(timeouts), trace).phase is Finished,
        run_after(RunView::launched(timeouts), trace).exit_status is None,
    ensures
        trace.len() > 0,
        trace.last().event matches Event::Exited(Err(_)),
        run_after(RunView::launched(timeouts), trace).timed_out,
{
    law_invariant_holds_throughout(RunView::launched(timeouts), trace);
    if trace.len() > 0 {
        law_invariant_holds_throughout(RunView::launched(timeouts), trace.drop_last());
    }
}

/// The status of a finished command is the last one that was given of it.
pub proof fn law_last_status_stands(timeouts: TimeoutsView, trace: Seq<Step>, i: int)
    requires
        possible(RunView::launched(timeouts), trace),
        0 <= i < trace.len(),
        (trace[i].event matches Event::Exited(Ok(_))) || (trace[i].event matches Event::Polled(
            Ok(Some(_)),
        )),
        forall|j: int|
            i < j < trace.len() ==> !((#[trigger] trace[j].event) matches Event::Exited(Ok(_)))
                && !(trace[j].event matches Event::Polled(Ok(Some(_)))),
    ensures
        run_after(RunView::launched(timeouts), trace).exit_status matches Some(status)
            && tells_status(trace[i].event, status),
    decreases trace.len(),
{
    if i < trace.len() - 1 {
        assert forall|j: int| i < j < trace.drop_last().len() implies !((
        #[trigger] trace.drop_last()[j].event) matches Event::Exited(Ok(_))) && !(
        trace.drop_last()[j].event matches Event::Polled(Ok(Some(_)))) by {
            assert(trace.drop_last()[j] == trace[j]);
        }
        assert(trace.drop_last()[i] == trace[i]);
        law_last_status_stands(timeouts, trace.drop_last(), i);
        assert(trace.last().event == trace[trace.len() - 1].event);
    }
}

/// Whether `event` is the end of a command that runs: that it was found to have
/// exited, or that its group was killed, or that it was looked at because its
/// group could not be killed.
pub open spec fn ends_run(event: Event) -> bool {
    ||| event matches Event::Exited(Ok(_))
    ||| event matches Event::KillReturned(Ok(_))
    ||| event matches Event::Polled(Ok(_))
}

/// Whether the first end of a command in `trace` is its event `i`.
pub open spec fn first_end(trace: Seq<Step>, i: int) -> bool {
    &&& 0 <= i < trace.len()
    &&& ends_run(trace[i].event)
    &&& forall|j: int| 0 <= j < i ==> !ends_run(#[trigger] trace[j].event)
}

/// A command has ended once the first event has happened that is the end of a
/// command, and it ended when that event happened: not before, not later, and
/// whatever came of it.
pub proof fn law_command_ends_at_its_first_end(timeouts: TimeoutsView, trace: Seq<Step>)
    requires
        timeouts.wf(),
        possible(RunView::launched(timeouts), trace),
    ensures
        run_after(RunView::launched(timeouts), trace).ended_at is None ==> forall|j: int|
            0 <= j < trace.len() ==> !ends_run(#[trigger] trace[j].event),
        run_after(RunView::launched(timeouts), trace).ended_at matches Some(end) ==> exists|i: int|
            #[trigger] first_end(trace, i) && trace[i].now == end,
    decreases trace.len(),
{
    let run = RunView::launched(timeouts);
    if trace.len() > 0 {
        law_command_ends_at_its_first_end(timeouts, trace.drop_last());
        law_invariant_holds_throughout(run, trace.drop_last());
        let before = run_after(run, trace.drop_last());
        let after = run_after(run, trace);
        assert(forall|j: int| 0 <= j < trace.len() - 1 ==> trace.drop_last()[j] == trace[j]);
        if before.ended_at is Some {
            let i = choose|i: int| #[trigger]
                first_end(trace.drop_last(), i) && trace.drop_last()[i].now
                    == before.ended_at->Some_0;
            assert(first_end(trace, i)) by {
                assert forall|j: int| 0 <= j < i implies !ends_run(#[trigger] trace[j].event) by {
                    assert(trace.drop_last()[j].event == trace[j].event);
                }
            }
            assert(trace[i].now == after.ended_at->Some_0);
        } else {
            assert forall|j: int| 0 <= j < trace.len() - 1 implies !ends_run(
                #[trigger] trace[j].event,
            ) by {
                assert(trace.drop_last()[j].event == trace[j].event);
            }
            if after.ended_at is Some {
                assert(first_end(trace, trace.len() - 1));
            }
        }
    }
}

/// A command is never reported to have run for longer than from its start to the
/// last that happened to it.
pub proof fn law_duration_ends_with_an_event(timeouts: TimeoutsView, trace: Seq<Step>)
    requires
        timeouts.wf(),
        possible(RunView::launched(timeouts), trace),
        in_order(timeouts.start_time, trace),
    ensures
        run_after(RunView::launched(timeouts), trace).ended_at matches Some(end)
            ==> timeouts.start_time <= end <= last_time(timeouts.start_time, trace)
            && elapsed_between(timeouts.start_time, end) == end - timeouts.start_time,
    decreases trace.len(),
{
    if trace.len() > 0 {
        law_duration_ends_with_an_event(timeouts, trace.drop_last());
        law_invariant_holds_throughout(RunView::launched(timeouts), trace.drop_last());
        law_deadline_follows_last_activity(timeouts, trace);
    }
}

/// Whether `event` is the one by which a command has timed out.
pub open spec fn strikes(event: Event) -> bool {
    ||| event matches Event::KillReturned(Ok(_))
    ||| event matches Event::Polled(Ok(None))
}

/// A command has timed out if and only if its group was killed, or it was still
/// there when its group could not be killed.
pub proof fn law_timed_out_if_killed(timeouts: TimeoutsView, trace: Seq<Step>)
    requires
        possible(RunView::launched(timeouts), trace),
    ensures
        run_after(RunView::launched(timeouts), trace).timed_out <==> exists|i: int|
            0 <= i < trace.len() && strikes(#[trigger] trace[i].event),
    decreases trace.len(),
{
    if trace.len() > 0 {
        law_timed_out_if_killed(timeouts, trace.drop_last());
        let run = RunView::launched(timeouts);
        if run_after(run, trace.drop_last()).timed_out {
            let i = choose|i: int|
                0 <= i < trace.drop_last().len() && strikes(#[trigger] trace.drop_last()[i].event);
            assert(strikes(trace[i].event));
        } else if strikes(trace.last().event) {
            assert(strikes(trace[trace.len() - 1].event));
        } else {
            assert forall|i: int| 0 <= i < trace.len() implies !strikes(
                #[trigger] trace[i].event,
            ) by {
                if i < trace.len() - 1 {
                    assert(trace.drop_last()[i].event == trace[i].event);
                }
            }
        }
    }
}

} // verus!

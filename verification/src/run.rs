//! The life of a command from its launch to its output, as a machine that is
//! told what has happened and says what to do next.

use crate::error::CommandError;
use crate::kill::{
    elapsed_between, finalize_exit_status, judge_kill, kill_verdict, needs_final_wait,
    process_group, process_group_of, report_timeout, timeout_report, ExitStatus, KillVerdict,
    TimeoutReport,
};
use crate::stream::{Stream, StreamState, StreamView};
use crate::time::{clock_shows, last_instant, Clock, Duration, Instant};
use crate::timeouts::{
    extend_deadline_at, reports_fault, timeouts_fault, timeouts_valid, validate_timeouts,
    TimeoutConfig, TimeoutsView,
};
use vstd::pervasive::unreached;
use vstd::prelude::*;

verus! {

/// Represents the output of a command.
#[derive(Clone, Debug, PartialEq, Eq)]
pub struct CommandOutput {
    /// The data captured from the command's standard output.
    pub stdout: Vec<u8>,
    /// The data captured from the command's standard error.
    pub stderr: Vec<u8>,
    /// The exit status of the command. `None` if the command was killed due to a
    /// timeout and waiting for it failed.
    pub exit_status: Option<ExitStatus>,
    /// The total time the command ran or was allowed to run before being
    /// terminated.
    pub duration: Duration,
    /// Whether the command was terminated due to exceeding a timeout.
    pub timed_out: bool,
}

/// Which output streams a spawned command can be read from.
#[derive(Clone, Copy, Debug, PartialEq, Eq, Structural)]
pub struct Pipes {
    pub stdout: bool,
    pub stderr: bool,
}

/// What is known of a command while it is executed.
#[derive(Debug)]
pub struct CommandExecutionState {
    pub stdout: StreamState,
    pub stderr: StreamState,
    pub current_deadline: Instant,
    pub timed_out: bool,
    pub exit_status: Option<ExitStatus>,
    /// When the command was found to have exited, or was killed.
    pub ended_at: Option<Instant>,
}

/// Why a command that was to be spawned cannot set out, if it cannot.
pub open spec fn launch_error(spawned: Result<Pipes, std::io::Error>) -> Option<CommandError> {
    match spawned {
        Err(e) => Some(CommandError::Spawn(e)),
        Ok(pipes) => if !pipes.stdout {
            Some(CommandError::StdoutPipe)
        } else if !pipes.stderr {
            Some(CommandError::StderrPipe)
        } else {
            None
        },
    }
}

/// Sets up the state of a command that has been spawned.
pub fn spawn_command_and_setup_state(
    spawned: Result<Pipes, std::io::Error>,
    initial_deadline: Instant,
) -> (r: Result<CommandExecutionState, CommandError>)
    ensures
        match r {
            Ok(state) => {
                &&& launch_error(spawned) is None
                &&& state.stdout@ == StreamView::fresh()
                &&& state.stderr@ == StreamView::fresh()
                &&& state.current_deadline == initial_deadline
                &&& !state.timed_out
                &&& state.exit_status is None
                &&& state.ended_at is None
            },
            Err(e) => launch_error(spawned) == Some(e),
        },
        r is Ok <==> (spawned matches Ok(pipes) && pipes.stdout && pipes.stderr),
        spawned matches Err(e) ==> r == Err::<CommandExecutionState, _>(CommandError::Spawn(e)),
{
    match spawned {
        Err(e) => Err(CommandError::Spawn(e)),
        Ok(pipes) => if !pipes.stdout {
            Err(CommandError::StdoutPipe)
        } else if !pipes.stderr {
            Err(CommandError::StderrPipe)
        } else {
            Ok(
                CommandExecutionState {
                    stdout: StreamState::fresh(),
                    stderr: StreamState::fresh(),
                    current_deadline: initial_deadline,
                    timed_out: false,
                    exit_status: None,
                    ended_at: None,
                },
            )
        },
    }
}

/// How far a command has come.
#[derive(Clone, Copy, Debug, PartialEq, Eq, Structural)]
pub enum Phase {
    /// It runs: its exit, its output and its deadline are watched.
    Running,
    /// It has run into its absolute deadline while it was being read from.
    Overdue,
    /// Its deadline has passed, and the group of this process is being killed.
    Killing(u32),
    /// There was no group to kill, or no way to name it, and the process itself is
    /// being looked at.
    Polling,
    /// It is over, and what is left in this stream is being read.
    Draining(Stream),
    /// It was killed, and its exit is being awaited.
    Reaping,
    /// Its output can be taken.
    Finished,
    /// It was given up with an error.
    Failed,
}

/// Something that has happened to a command.
#[derive(Debug)]
pub enum Event {
    /// Waiting for the command has ended.
    Exited(Result<ExitStatus, std::io::Error>),
    /// A read from a stream has ended; the bytes that it got, if any, are at the
    /// start of `chunk`, and their number is in `result`.
    Read { stream: Stream, chunk: Vec<u8>, result: Result<usize, std::io::Error> },
    /// The deadline has passed, for the command with this process identifier.
    DeadlineReached(Option<u32>),
    /// The attempt to kill the process group has ended, maybe with an error
    /// number.
    KillReturned(Result<(), i32>),
    /// The command has been looked at without waiting for it.
    Polled(Result<Option<ExitStatus>, std::io::Error>),
}

/// What to do next for a command.
#[derive(Clone, Copy, Debug)]
pub enum Action {
    /// Wait for its exit, for output on its open streams, or for its deadline.
    AwaitEvent,
    /// Its time is up: say that it has exited, if it has, or else that its
    /// deadline is reached. Nothing more is to be awaited.
    DeadlinePassed,
    /// Kill the process group `pgid`.
    KillGroup { pgid: i32, report: TimeoutReport },
    /// Look whether it has exited.
    PollChild,
    /// Read from a stream.
    DrainStream(Stream),
    /// Wait for its exit.
    AwaitExit,
    /// Take its output.
    Finish,
}

/// A command and how far it has come.
pub struct RunView {
    pub timeouts: TimeoutsView,
    pub phase: Phase,
    pub stdout: StreamView,
    pub stderr: StreamView,
    pub current_deadline: int,
    pub timed_out: bool,
    pub exit_status: Option<ExitStatus>,
    pub ended_at: Option<int>,
}

impl RunView {
    /// A command that has just been spawned.
    pub open spec fn launched(timeouts: TimeoutsView) -> RunView {
        RunView {
            timeouts,
            phase: Phase::Running,
            stdout: StreamView::fresh(),
            stderr: StreamView::fresh(),
            current_deadline: timeouts.initial_deadline(),
            timed_out: false,
            exit_status: None,
            ended_at: None,
        }
    }

    /// One of the two streams.
    pub open spec fn stream(self, stream: Stream) -> StreamView {
        match stream {
            Stream::Stdout => self.stdout,
            Stream::Stderr => self.stderr,
        }
    }

    /// The command with one of its streams replaced.
    pub open spec fn with_stream(self, stream: Stream, s: StreamView) -> RunView {
        match stream {
            Stream::Stdout => RunView { stdout: s, ..self },
            Stream::Stderr => RunView { stderr: s, ..self },
        }
    }

    /// What every command keeps to, however far it has come.
    pub open spec fn wf(self) -> bool {
        &&& self.timeouts.wf()
        &&& self.current_deadline <= self.timeouts.absolute_deadline
        &&& match self.phase {
            Phase::Running | Phase::Overdue | Phase::Killing(_) | Phase::Polling | Phase::Failed => {
                &&& !self.timed_out
                &&& self.exit_status is None
                &&& self.ended_at is None
            },
            Phase::Draining(stream) => {
                &&& self.timed_out == (self.exit_status is None)
                &&& self.ended_at is Some
                &&& self.stream(stream).open
                &&& stream is Stderr ==> !self.stdout.open
            },
            Phase::Reaping => {
                &&& self.timed_out
                &&& self.exit_status is None
                &&& self.ended_at is Some
                &&& !self.stdout.open
                &&& !self.stderr.open
            },
            Phase::Finished => {
                &&& self.timed_out || self.exit_status is Some
                &&& self.ended_at is Some
                &&& !self.stdout.open
                &&& !self.stderr.open
            },
        }
    }

    /// Whether the command is in a phase in which `event` can happen to it.
    pub open spec fn awaits(self, event: Event) -> bool {
        match event {
            Event::Exited(_) => self.phase is Running || self.phase is Overdue
                || self.phase is Reaping,
            Event::Read { stream, chunk, result } => {
                &&& self.phase is Running || self.phase == Phase::Draining(stream)
                &&& self.stream(stream).open
                &&& result matches Ok(n) ==> n <= chunk@.len()
            },
            Event::DeadlineReached(_) => self.phase is Running || self.phase is Overdue,
            Event::KillReturned(_) => self.phase is Killing,
            Event::Polled(_) => self.phase is Polling,
        }
    }

    /// What is left to do for a command that is over: read what is left in its
    /// streams, standard output first, and await its exit if it was killed.
    pub open spec fn winding_up(self) -> RunView {
        let phase = if self.stdout.open {
            Phase::Draining(Stream::Stdout)
        } else if self.stderr.open {
            Phase::Draining(Stream::Stderr)
        } else if self.timed_out && self.exit_status is None {
            Phase::Reaping
        } else {
            Phase::Finished
        };
        RunView { phase, ..self }
    }

    /// The command once it is found, at `now`, to have ended with `status`.
    pub open spec fn exited_with(self, now: int, status: ExitStatus) -> RunView {
        RunView { exit_status: Some(status), ended_at: Some(now), ..self }.winding_up()
    }

    /// The command once it has timed out and, by `now`, as much as could be done
    /// was done to kill it.
    pub open spec fn killed(self, now: int) -> RunView {
        RunView { timed_out: true, ended_at: Some(now), ..self }.winding_up()
    }

    /// The error that `event` ends the command with, if it does.
    pub open spec fn error_on(self, event: Event) -> Option<CommandError> {
        match event {
            Event::Exited(Err(e)) if !(self.phase is Reaping) => Some(CommandError::Wait(e)),
            Event::Read { result: Err(e), .. } if self.phase is Running => Some(
                CommandError::Io(e),
            ),
            Event::KillReturned(result) => match kill_verdict(self.phase->Killing_0, result) {
                Ok(_) => None,
                Err(e) => Some(e),
            },
            Event::Polled(Err(e)) => Some(CommandError::Wait(e)),
            _ => None,
        }
    }

    /// The command after an `event` at `now` that it does not fail on.
    pub open spec fn after(self, now: int, event: Event) -> RunView {
        match event {
            Event::Exited(Ok(status)) => if self.phase is Reaping {
                RunView { exit_status: Some(status), phase: Phase::Finished, ..self }
            } else {
                self.exited_with(now, status)
            },
            Event::Exited(Err(_)) => RunView { phase: Phase::Finished, ..self },
            Event::Read { stream, chunk, result } => {
                let read = self.with_stream(
                    stream,
                    self.stream(stream).after_drain_read(chunk@, result),
                );
                if self.phase is Draining {
                    read.winding_up()
                } else {
                    RunView {
                        phase: if now < self.timeouts.absolute_deadline {
                            Phase::Running
                        } else {
                            Phase::Overdue
                        },
                        current_deadline: if result matches Ok(n) && n > 0 {
                            self.timeouts.deadline_after_activity(now, self.current_deadline)
                        } else {
                            self.current_deadline
                        },
                        ..read
                    }
                }
            },
            Event::DeadlineReached(None) => RunView { phase: Phase::Polling, ..self },
            Event::DeadlineReached(Some(pid)) => RunView { phase: Phase::Killing(pid), ..self },
            Event::KillReturned(Ok(_)) => self.killed(now),
            Event::KillReturned(Err(_)) => RunView { phase: Phase::Polling, ..self },
            Event::Polled(Ok(Some(status))) => self.exited_with(now, status),
            Event::Polled(_) => self.killed(now),
        }
    }

    /// The command after an `event` at `now`.
    pub open spec fn next(self, now: int, event: Event) -> RunView {
        if self.error_on(event) is Some {
            RunView { phase: Phase::Failed, ..self }
        } else {
            self.after(now, event)
        }
    }

    /// Whether `action` is what to do for the command, at `now`.
    pub open spec fn calls_for(self, now: int, action: Action) -> bool {
        match self.phase {
            Phase::Running => action is AwaitEvent,
            Phase::Overdue => action is DeadlinePassed,
            Phase::Killing(pid) => action matches Action::KillGroup { pgid, report } && pgid
                == process_group_of(pid) && report@ == timeout_report(
                self.timeouts,
                now,
                self.current_deadline,
            ),
            Phase::Polling => action is PollChild,
            Phase::Draining(stream) => action == Action::DrainStream(stream),
            Phase::Reaping => action is AwaitExit,
            Phase::Finished => action is Finish,
            Phase::Failed => false,
        }
    }
}

/// A command that is about to be spawned.
#[derive(Debug)]
pub struct PendingCommand {
    clock: Clock,
    timeouts: TimeoutConfig,
    initial_deadline: Instant,
}

impl View for PendingCommand {
    type V = TimeoutsView;

    closed spec fn view(&self) -> TimeoutsView {
        self.timeouts@
    }
}

/// A command that has been spawned.
#[derive(Debug)]
pub struct CommandRun {
    clock: Clock,
    timeouts: TimeoutConfig,
    phase: Phase,
    state: CommandExecutionState,
}

impl View for CommandRun {
    type V = RunView;

    closed spec fn view(&self) -> RunView {
        RunView {
            timeouts: self.timeouts@,
            phase: self.phase,
            stdout: self.state.stdout@,
            stderr: self.state.stderr@,
            current_deadline: self.state.current_deadline@,
            timed_out: self.state.timed_out,
            exit_status: self.state.exit_status,
            ended_at: match self.state.ended_at {
                Some(t) => Some(t@),
                None => None,
            },
        }
    }
}

impl PendingCommand {
    /// Whether the command's first deadline is the one that its timeouts give.
    pub closed spec fn wf(&self) -> bool {
        &&& self.timeouts@.wf()
        &&& self.initial_deadline@ == self.timeouts@.initial_deadline()
    }

    /// When the command's clock was started.
    pub closed spec fn started(&self) -> std::time::Instant {
        self.clock@
    }

    /// Checks the timeouts of a command and starts its clock.
    pub fn prepare(
        minimum_timeout: Duration,
        maximum_timeout: Duration,
        activity_timeout: Duration,
    ) -> (r: Result<PendingCommand, CommandError>)
        requires
            timeouts_valid(
                minimum_timeout@ as int,
                maximum_timeout@ as int,
                activity_timeout@ as int,
            ) ==> maximum_timeout@ <= last_instant() && activity_timeout@ <= last_instant(),
        ensures
            match r {
                Ok(pending) => {
                    &&& timeouts_valid(
                        minimum_timeout@ as int,
                        maximum_timeout@ as int,
                        activity_timeout@ as int,
                    )
                    &&& pending.wf()
                    &&& call_ensures(std::time::Instant::now, (), pending.started())
                    &&& pending@ == TimeoutsView::starting_at(
                        0,
                        minimum_timeout@ as int,
                        maximum_timeout@ as int,
                        activity_timeout@ as int,
                    )
                    &&& pending@.minimum == minimum_timeout@
                    &&& pending@.maximum == maximum_timeout@
                    &&& pending@.activity == activity_timeout@
                    &&& pending@.start_time == 0
                    &&& pending@.absolute_deadline == maximum_timeout@
                },
                Err(e) => reports_fault(
                    e,
                    timeouts_fault(minimum_timeout@, maximum_timeout@, activity_timeout@),
                ),
            },
            r is Ok <==> minimum_timeout@ <= maximum_timeout@ && activity_timeout@ > 0,
    {
        match validate_timeouts(minimum_timeout, maximum_timeout, activity_timeout) {
            Err(e) => return Err(e),
            Ok(_) => {},
        }
        let clock = Clock::start();
        let timeouts = TimeoutConfig::starting_at(
            Instant::origin(),
            minimum_timeout,
            maximum_timeout,
            activity_timeout,
        );
        let initial_deadline = timeouts.initial_deadline();
        Ok(PendingCommand { clock, timeouts, initial_deadline })
    }

    /// Sets out with the command that has been spawned.
    pub fn launch(self, spawned: Result<Pipes, std::io::Error>) -> (r: Result<
        CommandRun,
        CommandError,
    >)
        requires
            self.wf(),
        ensures
            match r {
                Ok(run) => {
                    &&& launch_error(spawned) is None
                    &&& run@ == RunView::launched(self@)
                    &&& run@.timeouts == self@
                    &&& run@.phase == Phase::Running
                    &&& run.started() == self.started()
                    &&& run@.wf()
                },
                Err(e) => launch_error(spawned) == Some(e),
            },
            r is Ok <==> (spawned matches Ok(pipes) && pipes.stdout && pipes.stderr),
    {
        match spawn_command_and_setup_state(spawned, self.initial_deadline) {
            Err(e) => Err(e),
            Ok(state) => Ok(
                CommandRun {
                    clock: self.clock,
                    timeouts: self.timeouts,
                    phase: Phase::Running,
                    state,
                },
            ),
        }
    }
}

impl CommandRun {
    /// When the command's clock was started.
    pub closed spec fn started(&self) -> std::time::Instant {
        self.clock@
    }

    /// When the command is to be killed, as things stand.
    pub fn current_deadline(&self) -> (deadline: Instant)
        ensures
            deadline@ == self@.current_deadline,
    {
        self.state.current_deadline
    }

    /// The clock that the command's times are read from.
    pub fn clock(&self) -> (clock: Clock)
        ensures
            clock@ == self.started(),
    {
        self.clock
    }

    /// Whether the output of the running command on `stream` is to be awaited.
    pub fn can_read(&self, stream: Stream) -> (r: bool)
        ensures
            r == (self@.phase is Running && self@.stream(stream).open),
    {
        let open = match stream {
            Stream::Stdout => self.state.stdout.open,
            Stream::Stderr => self.state.stderr.open,
        };
        matches!(self.phase, Phase::Running) && open
    }

    /// Whether `event` can happen to the command now.
    pub fn awaits(&self, event: &Event) -> (r: bool)
        ensures
            r == self@.awaits(*event),
    {
        match event {
            Event::Exited(_) => matches!(
                self.phase,
                Phase::Running | Phase::Overdue | Phase::Reaping
            ),
            Event::Read { stream, chunk, result } => {
                let in_phase = match self.phase {
                    Phase::Running => true,
                    Phase::Draining(draining) => draining == *stream,
                    _ => false,
                };
                let open = match stream {
                    Stream::Stdout => self.state.stdout.open,
                    Stream::Stderr => self.state.stderr.open,
                };
                let fits = match result {
                    Ok(n) => *n <= chunk.len(),
                    Err(_) => true,
                };
                in_phase && open && fits
            },
            Event::DeadlineReached(_) => matches!(self.phase, Phase::Running | Phase::Overdue),
            Event::KillReturned(_) => matches!(self.phase, Phase::Killing(_)),
            Event::Polled(_) => matches!(self.phase, Phase::Polling),
        }
    }

    /// Goes on to what is left to do for a command that is over.
    fn wind_up(&mut self) -> (action: Action)
        ensures
            final(self).started() == old(self).started(),
            final(self)@ == old(self)@.winding_up(),
            forall|now: int| #[trigger] final(self)@.calls_for(now, action),
    {
        if self.state.stdout.open {
            self.phase = Phase::Draining(Stream::Stdout);
            Action::DrainStream(Stream::Stdout)
        } else if self.state.stderr.open {
            self.phase = Phase::Draining(Stream::Stderr);
            Action::DrainStream(Stream::Stderr)
        } else if needs_final_wait(self.state.exit_status, self.state.timed_out) {
            self.phase = Phase::Reaping;
            Action::AwaitExit
        } else {
            self.phase = Phase::Finished;
            Action::Finish
        }
    }

    /// Notes that the command was found, at `now`, to have ended with `status`.
    fn end_with(&mut self, now: Instant, status: ExitStatus) -> (action: Action)
        ensures
            final(self).started() == old(self).started(),
            final(self)@ == old(self)@.exited_with(now@, status),
            final(self)@.calls_for(now@, action),
    {
        self.state.exit_status = Some(status);
        self.state.ended_at = Some(now);
        self.wind_up()
    }

    /// Notes that the command has timed out and was killed by `now`, as far as
    /// that could be done.
    fn time_out(&mut self, now: Instant) -> (action: Action)
        ensures
            final(self).started() == old(self).started(),
            final(self)@ == old(self)@.killed(now@),
            final(self)@.calls_for(now@, action),
    {
        self.state.timed_out = true;
        self.state.ended_at = Some(now);
        self.wind_up()
    }

    /// Gives the command up.
    fn fail(&mut self, e: CommandError) -> (r: Result<Action, CommandError>)
        ensures
            final(self).started() == old(self).started(),
            final(self)@ == (RunView { phase: Phase::Failed, ..old(self)@ }),
            r == Err::<Action, _>(e),
    {
        self.phase = Phase::Failed;
        Err(e)
    }

    /// What comes of a read from the running command.
    fn on_loop_read(
        &mut self,
        now: Instant,
        stream: Stream,
        chunk: Vec<u8>,
        result: Result<usize, std::io::Error>,
    ) -> (r: Result<Action, CommandError>)
        requires
            old(self)@.phase is Running,
            old(self)@.awaits((Event::Read { stream, chunk, result })),
        ensures
            final(self).started() == old(self).started(),
            final(self)@ == old(self)@.next(now@, (Event::Read { stream, chunk, result })),
            match r {
                Ok(action) => {
                    &&& old(self)@.error_on((Event::Read { stream, chunk, result })) is None
                    &&& final(self)@.calls_for(now@, action)
                },
                Err(e) => old(self)@.error_on((Event::Read { stream, chunk, result })) == Some(e),
            },
    {
        let read = match stream {
            Stream::Stdout => self.state.stdout.on_read(&chunk, result),
            Stream::Stderr => self.state.stderr.on_read(&chunk, result),
        };
        match read {
            Ok(Some(_)) => extend_deadline_at(
                now,
                &mut self.state.current_deadline,
                &self.timeouts,
            ),
            Ok(None) => {},
            Err(e) => return self.fail(CommandError::Io(e)),
        }
        if now < self.timeouts.absolute_deadline {
            Ok(Action::AwaitEvent)
        } else {
            self.phase = Phase::Overdue;
            Ok(Action::DeadlinePassed)
        }
    }

    /// What comes of a read from a command that is over.
    fn on_drain_read(
        &mut self,
        now: Instant,
        stream: Stream,
        chunk: Vec<u8>,
        result: Result<usize, std::io::Error>,
    ) -> (action: Action)
        requires
            old(self)@.phase == Phase::Draining(stream),
            old(self)@.awaits((Event::Read { stream, chunk, result })),
        ensures
            final(self).started() == old(self).started(),
            final(self)@ == old(self)@.next(now@, (Event::Read { stream, chunk, result })),
            final(self)@.calls_for(now@, action),
    {
        match stream {
            Stream::Stdout => self.state.stdout.drain_reader(&chunk, result),
            Stream::Stderr => self.state.stderr.drain_reader(&chunk, result),
        };
        self.wind_up()
    }

    /// Tells the command of an `event` at `now`.
    pub fn advance_at(&mut self, now: Instant, event: Event) -> (r: Result<Action, CommandError>)
        requires
            old(self)@.wf(),
            old(self)@.awaits(event),
        ensures
            final(self)@.wf(),
            final(self).started() == old(self).started(),
            final(self)@ == old(self)@.next(now@, event),
            match r {
                Ok(action) => {
                    &&& old(self)@.error_on(event) is None
                    &&& final(self)@.calls_for(now@, action)
                },
                Err(e) => old(self)@.error_on(event) == Some(e),
            },
    {
        match event {
            Event::Exited(waited) => if matches!(self.phase, Phase::Reaping) {
                self.state.exit_status = finalize_exit_status(
                    self.state.exit_status,
                    self.state.timed_out,
                    waited,
                );
                self.phase = Phase::Finished;
                Ok(Action::Finish)
            } else {
                match waited {
                    Ok(status) => Ok(self.end_with(now, status)),
                    Err(e) => self.fail(CommandError::Wait(e)),
                }
            },
            Event::Read { stream, chunk, result } => if matches!(self.phase, Phase::Running) {
                self.on_loop_read(now, stream, chunk, result)
            } else {
                Ok(self.on_drain_read(now, stream, chunk, result))
            },
            Event::DeadlineReached(None) => {
                self.phase = Phase::Polling;
                Ok(Action::PollChild)
            },
            Event::DeadlineReached(Some(pid)) => {
                let report = report_timeout(now, self.state.current_deadline, &self.timeouts);
                self.phase = Phase::Killing(pid);
                Ok(Action::KillGroup { pgid: process_group(pid), report })
            },
            Event::KillReturned(result) => {
                let pid: u32 = match self.phase {
                    Phase::Killing(pid) => pid,
                    _ => unreached(),
                };
                match judge_kill(pid, result) {
                    Ok(KillVerdict::Sent) => Ok(self.time_out(now)),
                    Ok(KillVerdict::GroupGone) => {
                        self.phase = Phase::Polling;
                        Ok(Action::PollChild)
                    },
                    Err(e) => self.fail(e),
                }
            },
            Event::Polled(result) => match result {
                Ok(Some(status)) => Ok(self.end_with(now, status)),
                Ok(None) => Ok(self.time_out(now)),
                Err(e) => self.fail(CommandError::Wait(e)),
            },
        }
    }

    /// Tells the command of an `event` at the current time.
    pub fn advance(&mut self, event: Event) -> (r: Result<Action, CommandError>)
        requires
            old(self)@.wf(),
            old(self)@.awaits(event),
        ensures
            final(self)@.wf(),
            final(self).started() == old(self).started(),
            exists|now: int|
                {
                    &&& #[trigger] clock_shows(old(self).started(), now)
                    &&& final(self)@ == old(self)@.next(now, event)
                    &&& r matches Ok(action) ==> final(self)@.calls_for(now, action)
                },
            match r {
                Ok(_) => old(self)@.error_on(event) is None,
                Err(e) => old(self)@.error_on(event) == Some(e),
            },
    {
        let now = self.clock.now();
        self.advance_at(now, event)
    }

    /// The output of the command. Its duration lasts until the command was found
    /// to have exited or was killed; what comes after that does not count.
    pub fn finish(self) -> (output: CommandOutput)
        requires
            self@.wf(),
            self@.phase is Finished,
        ensures
            output.stdout@ == self@.stdout.bytes,
            output.stderr@ == self@.stderr.bytes,
            output.exit_status == self@.exit_status,
            output.timed_out == self@.timed_out,
            output.duration@ == elapsed_between(
                self@.timeouts.start_time,
                self@.ended_at->Some_0,
            ),
            self@.ended_at->Some_0 >= self@.timeouts.start_time ==> self@.timeouts.start_time
                + output.duration@ == self@.ended_at->Some_0,
            output.exit_status is None ==> output.timed_out,
    {
        let ended_at = self.state.ended_at.unwrap();
        CommandOutput {
            stdout: self.state.stdout.buffer,
            stderr: self.state.stderr.buffer,
            exit_status: self.state.exit_status,
            duration: ended_at.duration_since(self.timeouts.start_time),
            timed_out: self.state.timed_out,
        }
    }
}

} // verus!

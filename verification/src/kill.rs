//! What happens to a command whose deadline has passed.

use crate::error::{kill_error, kill_failure, other_io_error, CommandError};
use crate::text::{decimal, errno_display};
use crate::time::{Duration, Instant};
use crate::timeouts::{TimeoutConfig, TimeoutsView};
use vstd::prelude::*;

verus! {

/// How a process ended: the status word that waiting for it gives.
#[derive(Clone, Copy, Debug, PartialEq, Eq, Structural)]
pub struct ExitStatus {
    pub raw: i32,
}

/// The timeout that a command has run into.
#[derive(Clone, Copy, Debug, PartialEq, Eq, Structural)]
pub enum TimeoutReason {
    /// It has run for the maximum time.
    Maximum,
    /// It has been silent for too long.
    Activity,
}

/// What is known of a timeout when it strikes.
#[derive(Clone, Copy, Debug)]
pub struct TimeoutReport {
    pub reason: TimeoutReason,
    /// The deadline that has passed.
    pub triggered_deadline: Instant,
    /// How long the command has run.
    pub elapsed: Duration,
}

pub struct TimeoutReportView {
    pub reason: TimeoutReason,
    pub triggered_deadline: int,
    pub elapsed: int,
}

impl View for TimeoutReport {
    type V = TimeoutReportView;

    open spec fn view(&self) -> TimeoutReportView {
        TimeoutReportView {
            reason: self.reason,
            triggered_deadline: self.triggered_deadline@,
            elapsed: self.elapsed@ as int,
        }
    }
}

/// The time from `start` to `end`, zero where they lie the other way round.
pub open spec fn elapsed_between(start: int, end: int) -> int {
    if end >= start {
        end - start
    } else {
        0
    }
}

/// The timeout that strikes at `now`, where the command's deadline is `current`:
/// the maximum from the absolute deadline on, silence before it.
pub open spec fn timeout_report(timeouts: TimeoutsView, now: int, current: int) -> TimeoutReportView {
    TimeoutReportView {
        reason: if now >= timeouts.absolute_deadline {
            TimeoutReason::Maximum
        } else {
            TimeoutReason::Activity
        },
        triggered_deadline: if now >= timeouts.absolute_deadline {
            timeouts.absolute_deadline
        } else {
            current
        },
        elapsed: elapsed_between(timeouts.start_time, now),
    }
}

/// From `start` the time between leads to `end`, unless `end` lies before `start`;
/// it is never negative, and it adds up.
pub proof fn law_time_between(start: int, middle: int, end: int)
    ensures
        elapsed_between(start, end) >= 0,
        start <= end ==> start + elapsed_between(start, end) == end,
        end <= start ==> elapsed_between(start, end) == 0,
        start <= middle <= end ==> elapsed_between(start, middle) + elapsed_between(middle, end)
            == elapsed_between(start, end),
{
}

/// A timeout is put down to the maximum from the absolute deadline on, and that
/// is the deadline it names; before, it is put down to silence, and names the
/// deadline that the command had. What it says of the time is the time since the
/// start.
pub proof fn law_what_a_timeout_is_put_down_to(timeouts: TimeoutsView, now: int, current: int)
    ensures
        timeout_report(timeouts, now, current).reason == TimeoutReason::Maximum <==> now
            >= timeouts.absolute_deadline,
        timeout_report(timeouts, now, current).reason == TimeoutReason::Activity <==> now
            < timeouts.absolute_deadline,
        now >= timeouts.absolute_deadline ==> timeout_report(
            timeouts,
            now,
            current,
        ).triggered_deadline == timeouts.absolute_deadline,
        now < timeouts.absolute_deadline ==> timeout_report(
            timeouts,
            now,
            current,
        ).triggered_deadline == current,
        now >= timeouts.start_time ==> timeouts.start_time + timeout_report(
            timeouts,
            now,
            current,
        ).elapsed == now,
        now < timeouts.start_time ==> timeout_report(timeouts, now, current).elapsed == 0,
{
}

/// Tells which timeout strikes at `now`.
pub fn report_timeout(now: Instant, current_deadline: Instant, timeouts: &TimeoutConfig) -> (report:
    TimeoutReport)
    ensures
        report@ == timeout_report(timeouts@, now@, current_deadline@),
        report.reason == TimeoutReason::Maximum <==> now@ >= timeouts.absolute_deadline@,
        now@ >= timeouts.absolute_deadline@ ==> report.triggered_deadline
            == timeouts.absolute_deadline,
        now@ < timeouts.absolute_deadline@ ==> report.triggered_deadline == current_deadline,
        now@ >= timeouts.start_time@ ==> timeouts.start_time@ + report.elapsed@ == now@,
{
    let elapsed = now.duration_since(timeouts.start_time);
    if now >= timeouts.absolute_deadline {
        TimeoutReport {
            reason: TimeoutReason::Maximum,
            triggered_deadline: timeouts.absolute_deadline,
            elapsed,
        }
    } else {
        TimeoutReport {
            reason: TimeoutReason::Activity,
            triggered_deadline: current_deadline,
            elapsed,
        }
    }
}

/// The process group that a process leads: its process identifier, read as a
/// signed number.
pub open spec fn process_group_of(pid: u32) -> int {
    if pid <= i32::MAX {
        pid as int
    } else {
        pid - 0x1_0000_0000
    }
}

/// A group has the number of the process that leads it, as far as a signed number
/// of the same width can tell them apart: no two processes lead the same group.
pub proof fn law_group_is_that_of_its_leader(pid: u32, other: u32)
    ensures
        i32::MIN <= process_group_of(pid) <= i32::MAX,
        (process_group_of(pid) - pid) % 0x1_0000_0000 == 0,
        process_group_of(pid) == process_group_of(other) ==> pid == other,
{
}

pub fn process_group(pid: u32) -> (pgid: i32)
    ensures
        pgid == process_group_of(pid),
        (pgid - pid) % 0x1_0000_0000 == 0,
{
    let pgid: i32 = #[verifier::truncate]
    (pid as i32);
    assert(pgid == process_group_of(pid)) by {
        assert(pid <= 0x7fff_ffff ==> pid as i32 == pid) by (bit_vector);
        assert(pid > 0x7fff_ffff ==> pid as i32 == pid - 0x1_0000_0000) by (bit_vector);
    }
    pgid
}

/// The error number for a process or a process group that does not exist.
pub const ESRCH: i32 = 3;

/// Whether `nix::errno::Errno::from_raw` reads `Errno::ESRCH` from an error
/// number, that is, whether the number is the system's `ESRCH`: 3 on Linux,
/// Android, macOS, the BSDs, illumos and AIX.
#[verifier::external_body]
fn is_no_such_process(code: i32) -> (r: bool)
    ensures
        r == (code == ESRCH),
{
    nix::errno::Errno::from_raw(code) == nix::errno::Errno::ESRCH
}

/// What has come of the attempt to kill a process group.
#[derive(Clone, Copy, Debug, PartialEq, Eq, Structural)]
pub enum KillVerdict {
    /// The signal has been sent.
    Sent,
    /// There was no such group: its processes have exited already.
    GroupGone,
}

/// What the attempt to kill the group of `pid` comes to, given what the
/// operating system said.
pub open spec fn kill_verdict(pid: u32, result: Result<(), i32>) -> Result<
    KillVerdict,
    CommandError,
> {
    match result {
        Ok(_) => Ok(KillVerdict::Sent),
        Err(code) => if code == ESRCH {
            Ok(KillVerdict::GroupGone)
        } else {
            Err(CommandError::Kill(other_io_error(kill_failure(pid, errno_display(code)))))
        },
    }
}

/// A kill succeeds if the system says so, finds no group if the system says that
/// there is none, and fails on any other answer, with an error that says which
/// process it was and what the system said.
pub proof fn law_what_a_kill_comes_to(pid: u32, code: i32)
    ensures
        kill_verdict(pid, Ok(())) == Ok::<KillVerdict, CommandError>(KillVerdict::Sent),
        code == 3 ==> kill_verdict(pid, Err(code)) == Ok::<KillVerdict, CommandError>(
            KillVerdict::GroupGone,
        ),
        code != 3 ==> kill_verdict(pid, Err(code)) == Err::<KillVerdict, CommandError>(
            CommandError::Kill(
                other_io_error(
                    "Failed to kill process group for PID "@ + decimal(pid as nat) + ": "@
                        + errno_display(code),
                ),
            ),
        ),
{
}

pub fn judge_kill(pid: u32, result: Result<(), i32>) -> (r: Result<KillVerdict, CommandError>)
    ensures
        r == kill_verdict(pid, result),
        r == Ok::<KillVerdict, CommandError>(KillVerdict::Sent) <==> result is Ok,
        r == Ok::<KillVerdict, CommandError>(KillVerdict::GroupGone) <==> result
            == Err::<(), i32>(3),
{
    match result {
        Ok(_) => Ok(KillVerdict::Sent),
        Err(code) => if is_no_such_process(code) {
            Ok(KillVerdict::GroupGone)
        } else {
            Err(kill_error(pid, code))
        },
    }
}

/// Whether the final status of a command has to be awaited: it was killed, and
/// its status is not known.
pub fn needs_final_wait(current_status: Option<ExitStatus>, timed_out: bool) -> (r: bool)
    ensures
        r == (timed_out && current_status is None),
{
    timed_out && current_status.is_none()
}

/// The final status of a command. Where it had to be awaited, `waited` is what
/// waiting gave; if that failed, the status stays unknown.
pub fn finalize_exit_status(
    current_status: Option<ExitStatus>,
    timed_out: bool,
    waited: Result<ExitStatus, std::io::Error>,
) -> (status: Option<ExitStatus>)
    ensures
        status == if timed_out && current_status is None {
            match waited {
                Ok(s) => Some(s),
                Err(_) => None,
            }
        } else {
            current_status
        },
{
    if needs_final_wait(current_status, timed_out) {
        match waited {
            Ok(status) => Some(status),
            Err(_) => None,
        }
    } else {
        current_status
    }
}

} // verus!

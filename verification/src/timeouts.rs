//! The three timeouts of a command, and the deadline that follows from them.

use crate::error::{minimum_above_maximum, minimum_above_maximum_text, CommandError};
use crate::text::{duration_debug, duration_text};
use crate::time::{clock_shows, last_instant, Clock, Duration, Instant};
use vstd::prelude::*;

verus! {

pub open spec fn earlier(a: int, b: int) -> int {
    if a <= b {
        a
    } else {
        b
    }
}

pub open spec fn later(a: int, b: int) -> int {
    if a >= b {
        a
    } else {
        b
    }
}

/// Configuration for command timeouts.
#[derive(Clone, Copy, Debug)]
pub struct TimeoutConfig {
    pub minimum: Duration,
    pub maximum: Duration,
    pub activity: Duration,
    pub start_time: Instant,
    pub absolute_deadline: Instant,
}

/// The timeouts in nanoseconds.
pub struct TimeoutsView {
    pub minimum: int,
    pub maximum: int,
    pub activity: int,
    pub start_time: int,
    pub absolute_deadline: int,
}

impl View for TimeoutConfig {
    type V = TimeoutsView;

    open spec fn view(&self) -> TimeoutsView {
        TimeoutsView {
            minimum: self.minimum@ as int,
            maximum: self.maximum@ as int,
            activity: self.activity@ as int,
            start_time: self.start_time@,
            absolute_deadline: self.absolute_deadline@,
        }
    }
}

/// Which timeouts a command can be run with.
pub open spec fn timeouts_valid(minimum: int, maximum: int, activity: int) -> bool {
    minimum <= maximum && activity > 0
}

/// What is wrong with a command's timeouts, if anything: first that the minimum
/// lies above the maximum, then that no silence is allowed at all.
pub open spec fn timeouts_fault(minimum: nat, maximum: nat, activity: nat) -> Option<Seq<char>> {
    if minimum > maximum {
        Some(minimum_above_maximum(duration_debug(minimum), duration_debug(maximum)))
    } else if activity == 0 {
        Some("activity_timeout must be positive"@)
    } else {
        None
    }
}

/// Whether `e` reports the timeouts as invalid, for the reason that `fault` gives.
pub open spec fn reports_fault(e: CommandError, fault: Option<Seq<char>>) -> bool {
    e matches CommandError::InvalidTimeout(text) && fault == Some(text@)
}

impl TimeoutsView {
    /// The timeouts of a command that starts at `start_time`.
    pub open spec fn starting_at(start_time: int, minimum: int, maximum: int, activity: int) -> Self {
        TimeoutsView {
            minimum,
            maximum,
            activity,
            start_time,
            absolute_deadline: start_time + maximum,
        }
    }

    /// Whether these are timeouts that a command can be run with.
    pub open spec fn wf(self) -> bool {
        &&& self.minimum >= 0
        &&& timeouts_valid(self.minimum, self.maximum, self.activity)
        &&& self.absolute_deadline == self.start_time + self.maximum
    }

    /// The deadline of a command that has not said anything yet.
    pub open spec fn initial_deadline(self) -> int {
        earlier(self.absolute_deadline, self.start_time + later(self.minimum, self.activity))
    }

    /// The deadline of a command that says something at `now`, while its
    /// deadline is `current`: it may stay silent for the activity timeout, and
    /// until the minimum has passed in any case, but not beyond the absolute
    /// deadline. A deadline that has come up to the absolute one stays.
    pub open spec fn deadline_after_activity(self, now: int, current: int) -> int {
        if current < self.absolute_deadline {
            earlier(
                self.absolute_deadline,
                later(self.start_time + self.minimum, now + self.activity),
            )
        } else {
            current
        }
    }
}

/// The earlier of two points in time is one of the two and lies after neither; the
/// later is one of the two and lies before neither.
pub proof fn law_earlier_and_later(a: int, b: int)
    ensures
        earlier(a, b) <= a,
        earlier(a, b) <= b,
        earlier(a, b) == a || earlier(a, b) == b,
        later(a, b) >= a,
        later(a, b) >= b,
        later(a, b) == a || later(a, b) == b,
{
}

/// A command keeps the timeouts that it was given, each of them as it was given,
/// and is killed when the maximum has passed since its start.
pub proof fn law_timeouts_are_those_given(start: int, minimum: int, maximum: int, activity: int)
    ensures
        TimeoutsView::starting_at(start, minimum, maximum, activity).minimum == minimum,
        TimeoutsView::starting_at(start, minimum, maximum, activity).maximum == maximum,
        TimeoutsView::starting_at(start, minimum, maximum, activity).activity == activity,
        TimeoutsView::starting_at(start, minimum, maximum, activity).start_time == start,
        TimeoutsView::starting_at(start, minimum, maximum, activity).absolute_deadline - start
            == maximum,
        TimeoutsView::starting_at(start, minimum, maximum, activity).wf() <==> 0 <= minimum
            <= maximum && activity > 0,
{
}

/// A command that says nothing is killed at the absolute deadline, or before it
/// when both the minimum and the activity timeout have passed, and no later than
/// that.
pub proof fn law_silent_command_is_granted_the_longer_timeout(timeouts: TimeoutsView)
    ensures
        timeouts.initial_deadline() <= timeouts.absolute_deadline,
        timeouts.initial_deadline() < timeouts.absolute_deadline ==> {
            &&& timeouts.initial_deadline() - timeouts.start_time >= timeouts.minimum
            &&& timeouts.initial_deadline() - timeouts.start_time >= timeouts.activity
        },
        timeouts.initial_deadline() - timeouts.start_time <= timeouts.minimum
            || timeouts.initial_deadline() - timeouts.start_time <= timeouts.activity,
{
}

/// A command that says something at `now` is killed at the absolute deadline, or
/// before it when the minimum has passed since its start and the activity timeout
/// since `now`, and no later than that. A deadline that has come up to the
/// absolute one is not moved.
pub proof fn law_activity_is_granted_the_activity_timeout(
    timeouts: TimeoutsView,
    now: int,
    current: int,
)
    ensures
        current >= timeouts.absolute_deadline ==> timeouts.deadline_after_activity(now, current)
            == current,
        current < timeouts.absolute_deadline ==> ({
            let deadline = timeouts.deadline_after_activity(now, current);
            &&& deadline <= timeouts.absolute_deadline
            &&& deadline < timeouts.absolute_deadline ==> {
                &&& deadline - timeouts.start_time >= timeouts.minimum
                &&& deadline - now >= timeouts.activity
            }
            &&& deadline - timeouts.start_time <= timeouts.minimum || deadline - now
                <= timeouts.activity
        }),
{
}

/// The later a command says something, the later it is killed, and activity that
/// is reported twice counts once.
pub proof fn law_later_activity_is_granted_no_less(
    timeouts: TimeoutsView,
    now: int,
    later_now: int,
    current: int,
)
    requires
        now <= later_now,
    ensures
        timeouts.deadline_after_activity(now, current) <= timeouts.deadline_after_activity(
            later_now,
            current,
        ) <= timeouts.deadline_after_activity(now, current) + (later_now - now),
        timeouts.deadline_after_activity(now, timeouts.deadline_after_activity(now, current))
            == timeouts.deadline_after_activity(now, current),
{
}

/// Timeouts are rejected if the minimum lies above the maximum or no silence is
/// allowed, and only then; what is said of the first names both spans, and comes
/// before the second.
pub proof fn law_which_timeouts_are_rejected(minimum: nat, maximum: nat, activity: nat)
    ensures
        timeouts_valid(minimum as int, maximum as int, activity as int) <==> minimum <= maximum
            && activity != 0,
        timeouts_fault(minimum, maximum, activity) is None <==> minimum <= maximum && activity != 0,
        minimum > maximum ==> timeouts_fault(minimum, maximum, activity) == Some(
            "minimum_timeout ("@ + duration_debug(minimum)
                + ") cannot be greater than maximum_timeout ("@ + duration_debug(maximum) + ")"@,
        ),
        minimum <= maximum && activity == 0 ==> timeouts_fault(minimum, maximum, activity) == Some(
            "activity_timeout must be positive"@,
        ),
        forall|e: CommandError, fault: Option<Seq<char>>| #[trigger]
            reports_fault(e, fault) <==> e is InvalidTimeout && fault is Some
                && e->InvalidTimeout_0@ == fault->Some_0,
{
}

/// Validates the timeout durations.
pub fn validate_timeouts(min: Duration, max: Duration, activity: Duration) -> (r: Result<
    (),
    CommandError,
>)
    ensures
        r is Ok <==> timeouts_valid(min@ as int, max@ as int, activity@ as int),
        r is Ok <==> min@ <= max@ && activity@ > 0,
        r matches Err(e) ==> e is InvalidTimeout && reports_fault(
            e,
            timeouts_fault(min@, max@, activity@),
        ),
{
    if min > max {
        let min_text = duration_text(min);
        let max_text = duration_text(max);
        return Err(
            CommandError::InvalidTimeout(
                minimum_above_maximum_text(min_text.as_str(), max_text.as_str()),
            ),
        );
    }
    if activity.is_zero() {
        return Err(
            CommandError::InvalidTimeout("activity_timeout must be positive".to_string()),
        );
    }
    Ok(())
}

impl TimeoutConfig {
    /// The timeouts of a command that starts at `start_time`.
    pub fn starting_at(
        start_time: Instant,
        minimum: Duration,
        maximum: Duration,
        activity: Duration,
    ) -> (timeouts: TimeoutConfig)
        requires
            start_time@ + maximum@ <= last_instant(),
        ensures
            timeouts@ == TimeoutsView::starting_at(
                start_time@,
                minimum@ as int,
                maximum@ as int,
                activity@ as int,
            ),
            timeouts.minimum == minimum,
            timeouts.maximum == maximum,
            timeouts.activity == activity,
            timeouts.start_time == start_time,
            timeouts.absolute_deadline@ == start_time@ + maximum@,
    {
        let absolute_deadline = start_time.checked_add(maximum).unwrap();
        TimeoutConfig { minimum, maximum, activity, start_time, absolute_deadline }
    }

    /// The deadline of a command that has not said anything yet.
    pub fn initial_deadline(&self) -> (deadline: Instant)
        requires
            self.start_time@ + later(self.minimum@ as int, self.activity@ as int)
                <= last_instant(),
        ensures
            deadline@ == self@.initial_deadline(),
            deadline@ <= self.absolute_deadline@,
            deadline@ < self.absolute_deadline@ ==> {
                &&& deadline@ >= self.start_time@ + self.minimum@
                &&& deadline@ >= self.start_time@ + self.activity@
            },
            deadline@ <= self.start_time@ + self.minimum@ || deadline@ <= self.start_time@
                + self.activity@,
    {
        let silence = if self.minimum > self.activity {
            self.minimum
        } else {
            self.activity
        };
        let silent_until = self.start_time.checked_add(silence).unwrap();
        if silent_until < self.absolute_deadline {
            silent_until
        } else {
            self.absolute_deadline
        }
    }
}

/// The deadline of a command that says something at `now`: the activity timeout
/// from then, capped by the absolute deadline. Where the first of the two lies
/// past the last representable instant, the second is the earlier one.
pub fn new_deadline_at(
    now: Instant,
    absolute_deadline: Instant,
    activity_timeout: Duration,
) -> (deadline: Instant)
    ensures
        deadline@ == earlier(now@ + activity_timeout@, absolute_deadline@),
        now@ + activity_timeout@ >= absolute_deadline@ ==> deadline == absolute_deadline,
        now@ + activity_timeout@ <= absolute_deadline@ ==> deadline@ == now@ + activity_timeout@,
{
    proof {
        use_type_invariant(&absolute_deadline);
        absolute_deadline.lemma_in_range();
    }
    match now.checked_add(activity_timeout) {
        Some(t) => if t < absolute_deadline {
            t
        } else {
            absolute_deadline
        },
        None => absolute_deadline,
    }
}

/// Calculates the next deadline based on activity at the current time, capped by
/// the absolute deadline.
pub fn calculate_new_deadline(
    clock: &Clock,
    absolute_deadline: Instant,
    activity_timeout: Duration,
) -> (deadline: Instant)
    ensures
        exists|now: int|
            {
                &&& #[trigger] clock_shows(clock@, now)
                &&& deadline@ == earlier(now + activity_timeout@, absolute_deadline@)
                &&& now + activity_timeout@ >= absolute_deadline@ ==> deadline == absolute_deadline
                &&& now + activity_timeout@ <= absolute_deadline@ ==> deadline@ == now
                    + activity_timeout@
            },
{
    let now = clock.now();
    new_deadline_at(now, absolute_deadline, activity_timeout)
}

/// Updates the deadline of a command that says something at `now`.
pub fn extend_deadline_at(now: Instant, current_deadline: &mut Instant, timeouts: &TimeoutConfig)
    ensures
        final(current_deadline)@ == timeouts@.deadline_after_activity(
            now@,
            old(current_deadline)@,
        ),
        old(current_deadline)@ >= timeouts.absolute_deadline@ ==> *final(current_deadline) == *old(
            current_deadline,
        ),
{
    let silent_until = new_deadline_at(now, timeouts.absolute_deadline, timeouts.activity);
    let granted_until = new_deadline_at(
        timeouts.start_time,
        timeouts.absolute_deadline,
        timeouts.minimum,
    );
    let new_deadline = if silent_until < granted_until {
        granted_until
    } else {
        silent_until
    };
    if *current_deadline < timeouts.absolute_deadline && new_deadline != *current_deadline {
        *current_deadline = new_deadline;
    }
}

/// Updates the current deadline based on activity at the current time: a read of
/// `bytes_read` bytes from the stream called `stream_name`. Neither the number
/// nor the name bears on the deadline.
pub fn handle_stream_activity(
    clock: &Clock,
    bytes_read: usize,
    stream_name: &str,
    current_deadline: &mut Instant,
    timeouts: &TimeoutConfig,
)
    ensures
        exists|now: int|
            {
                &&& #[trigger] clock_shows(clock@, now)
                &&& final(current_deadline)@ == timeouts@.deadline_after_activity(
                    now,
                    old(current_deadline)@,
                )
            },
        old(current_deadline)@ >= timeouts.absolute_deadline@ ==> *final(current_deadline) == *old(
            current_deadline,
        ),
{
    let now = clock.now();
    extend_deadline_at(now, current_deadline, timeouts);
}

} // verus!

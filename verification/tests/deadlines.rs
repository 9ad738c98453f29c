use command_timeout::timeouts::{extend_deadline_at, new_deadline_at};
use command_timeout::{
    calculate_new_deadline, handle_stream_activity, validate_timeouts, Clock, CommandError,
    Duration, Instant, TimeoutConfig,
};

fn at_millis(millis: u64) -> Instant {
    Instant::origin()
        .checked_add(Duration::from_millis(millis))
        .unwrap()
}

#[test]
fn test_calculate_new_deadline_absolute_deadline_passed() {
    let clock = Clock::start();
    let absolute_deadline = clock.now().checked_sub(Duration::from_secs(1)).unwrap(); // Already passed
    let activity_timeout = Duration::from_secs(5);

    let new_deadline = calculate_new_deadline(&clock, absolute_deadline, activity_timeout);

    assert_eq!(
        new_deadline, absolute_deadline,
        "New deadline should be the absolute deadline when it has already passed"
    );
}

#[test]
fn test_calculate_new_deadline_activity_timeout_before_absolute_deadline() {
    let clock = Clock::start();
    let absolute_deadline = clock.now().checked_add(Duration::from_secs(10)).unwrap();
    let activity_timeout = Duration::from_secs(5);

    let new_deadline = calculate_new_deadline(&clock, absolute_deadline, activity_timeout);

    assert!(
        new_deadline <= absolute_deadline,
        "New deadline should not exceed the absolute deadline"
    );
    assert!(
        new_deadline > clock.now(),
        "New deadline should be in the future"
    );
}

#[test]
fn test_handle_stream_activity_updates_deadline() {
    let clock = Clock::start();
    let mut current_deadline = clock.now().checked_add(Duration::from_secs(5)).unwrap();
    let timeouts = TimeoutConfig {
        minimum: Duration::from_secs(1),
        maximum: Duration::from_secs(10),
        activity: Duration::from_secs(3),
        start_time: clock.now(),
        absolute_deadline: clock.now().checked_add(Duration::from_secs(10)).unwrap(),
    };

    handle_stream_activity(&clock, 10, "stdout", &mut current_deadline, &timeouts);

    assert!(
        current_deadline > clock.now(),
        "Current deadline should be updated to a future time"
    );
    assert!(
        current_deadline <= timeouts.absolute_deadline,
        "Current deadline should not exceed the absolute deadline"
    );
    // Three seconds from now, not five.
    assert!(current_deadline < clock.now().checked_add(Duration::from_secs(4)).unwrap());
    assert!(current_deadline > clock.now().checked_add(Duration::from_secs(2)).unwrap());
}

#[test]
fn test_handle_stream_activity_no_update_at_absolute_limit() {
    let clock = Clock::start();
    let absolute_deadline = clock.now().checked_add(Duration::from_secs(5)).unwrap();
    let mut current_deadline = absolute_deadline; // Already at the absolute limit
    let timeouts = TimeoutConfig {
        minimum: Duration::from_secs(1),
        maximum: Duration::from_secs(10),
        activity: Duration::from_secs(3),
        start_time: clock.now(),
        absolute_deadline,
    };

    handle_stream_activity(&clock, 10, "stderr", &mut current_deadline, &timeouts);

    assert_eq!(
        current_deadline, absolute_deadline,
        "Current deadline should remain unchanged when at the absolute limit"
    );
}

#[test]
fn clock_starts_at_its_origin_and_runs_forward() {
    let clock = Clock::start();
    let first = clock.now();
    let second = clock.now();
    assert!(first >= Instant::origin());
    assert!(second >= first);
    assert!(first < at_millis(60_000));
    assert!(clock.std_origin() <= std::time::Instant::now());
}

#[test]
fn new_deadline_is_the_earlier_of_the_two() {
    let activity = Duration::from_secs(1);
    assert_eq!(new_deadline_at(at_millis(500), at_millis(4000), activity), at_millis(1500));
    assert_eq!(new_deadline_at(at_millis(3000), at_millis(4000), activity), at_millis(4000));
    assert_eq!(new_deadline_at(at_millis(3500), at_millis(4000), activity), at_millis(4000));
    let forever = Duration::from_secs(u64::MAX);
    assert_eq!(new_deadline_at(at_millis(3500), at_millis(4000), forever), at_millis(4000));
}

#[test]
fn deadline_moves_with_activity_until_it_meets_the_absolute_one() {
    let timeouts = TimeoutConfig::starting_at(
        Instant::origin(),
        Duration::from_millis(200),
        Duration::from_secs(3),
        Duration::from_secs(1),
    );
    let mut deadline = timeouts.initial_deadline();
    assert_eq!(deadline, at_millis(1000));
    extend_deadline_at(at_millis(700), &mut deadline, &timeouts);
    assert_eq!(deadline, at_millis(1700));
    extend_deadline_at(at_millis(2500), &mut deadline, &timeouts);
    assert_eq!(deadline, at_millis(3000));
    extend_deadline_at(at_millis(100), &mut deadline, &timeouts);
    assert_eq!(deadline, at_millis(3000));
}

#[test]
fn initial_deadline_grants_the_minimum_within_the_maximum() {
    let deadline = |min, max, activity| {
        TimeoutConfig::starting_at(
            at_millis(100),
            Duration::from_millis(min),
            Duration::from_millis(max),
            Duration::from_millis(activity),
        )
        .initial_deadline()
    };
    assert_eq!(deadline(2000, 5000, 1000), at_millis(2100));
    assert_eq!(deadline(1000, 5000, 2000), at_millis(2100));
    assert_eq!(deadline(1000, 2000, 10_000), at_millis(2100));
    assert_eq!(deadline(2000, 2000, 1), at_millis(2100));
}

fn fault(r: Result<(), CommandError>) -> String {
    match r {
        Err(CommandError::InvalidTimeout(text)) => text,
        other => panic!("expected an invalid timeout, got {:?}", other),
    }
}

#[test]
fn invalid_timeouts_are_explained() {
    let secs = Duration::from_secs;
    assert_eq!(
        fault(validate_timeouts(Duration::from_millis(1500), secs(1), secs(1))),
        "minimum_timeout (1.5s) cannot be greater than maximum_timeout (1s)"
    );
    // The minimum is looked at first.
    assert_eq!(
        fault(validate_timeouts(secs(2), Duration::from_millis(20), secs(0))),
        "minimum_timeout (2s) cannot be greater than maximum_timeout (20ms)"
    );
    assert_eq!(
        fault(validate_timeouts(Duration::from_millis(100), secs(1), secs(0))),
        "activity_timeout must be positive"
    );
}

#[test]
fn equal_minimum_and_maximum_are_valid() {
    let second = Duration::from_secs(1);
    assert!(validate_timeouts(second, second, Duration::from_parts(0, 1)).is_ok());
    assert!(validate_timeouts(Duration::from_secs(0), Duration::from_secs(0), second).is_ok());
}

#[test]
fn durations_count_seconds_and_nanoseconds() {
    let d = Duration::from_millis(2345);
    assert_eq!(d.as_secs(), 2);
    assert_eq!(d.subsec_nanos(), 345_000_000);
    assert_eq!(d, Duration::from_parts(2, 345_000_000));
    assert!(!d.is_zero());
    assert!(Duration::from_secs(0).is_zero());
    assert!(Duration::from_parts(1, 999_999_999) < Duration::from_secs(2));
    assert!(Duration::from_parts(1, 5) > Duration::from_parts(1, 4));
}

#[test]
fn instants_carry_and_borrow() {
    let t = at_millis(900).checked_add(Duration::from_millis(200)).unwrap();
    assert_eq!(t, at_millis(1100));
    assert_eq!(t.checked_sub(Duration::from_millis(300)).unwrap(), at_millis(800));
    assert_eq!(t.duration_since(at_millis(800)), Duration::from_millis(300));
    assert_eq!(at_millis(800).duration_since(t), Duration::from_secs(0));
    assert!(at_millis(800) < t);

    let before = Instant::origin().checked_sub(Duration::from_millis(1)).unwrap();
    assert!(before < Instant::origin());
    assert_eq!(before.checked_add(Duration::from_millis(1)).unwrap(), Instant::origin());

    let last_secs = i64::MAX as u64;
    assert!(Instant::origin().checked_add(Duration::from_secs(last_secs)).is_some());
    assert!(Instant::origin().checked_add(Duration::from_secs(last_secs + 1)).is_none());
    assert!(Instant::origin().checked_sub(Duration::from_secs(last_secs + 1)).is_some());
    assert!(Instant::origin()
        .checked_sub(Duration::from_parts(last_secs + 1, 1))
        .is_none());
}

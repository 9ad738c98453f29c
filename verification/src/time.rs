//! Spans of time, points in time, and the clock that reads them.
//!
//! A [`Duration`] is viewed as its number of nanoseconds, an [`Instant`] as the
//! nanoseconds that lie between the origin of its [`Clock`] and itself (a
//! negative number before the origin).

use std::cmp::Ordering;
use vstd::prelude::*;
use vstd::std_specs::cmp::{PartialOrdSpec, PartialOrdSpecImpl};

verus! {

pub const NANOS_PER_SEC: u32 = 1_000_000_000;

/// The view of the last representable [`Instant`].
pub open spec fn last_instant() -> int {
    i64::MAX * NANOS_PER_SEC + NANOS_PER_SEC - 1
}

/// The view of the first representable [`Instant`].
pub open spec fn first_instant() -> int {
    i64::MIN * NANOS_PER_SEC
}

/// A span of time, in whole seconds and the nanoseconds beyond them.
#[derive(Clone, Copy, Debug, PartialEq, Eq, Structural)]
pub struct Duration {
    secs: u64,
    nanos: u32,
}

impl View for Duration {
    type V = nat;

    closed spec fn view(&self) -> nat {
        (self.secs * NANOS_PER_SEC + self.nanos) as nat
    }
}

impl Duration {
    #[verifier::type_invariant]
    spec fn nanos_in_range(self) -> bool {
        self.nanos < NANOS_PER_SEC
    }

    /// The span of `secs` seconds and `nanos` nanoseconds.
    pub fn from_parts(secs: u64, nanos: u32) -> (d: Duration)
        requires
            nanos < NANOS_PER_SEC,
        ensures
            d@ == secs * NANOS_PER_SEC + nanos,
    {
        Duration { secs, nanos }
    }

    pub fn from_secs(secs: u64) -> (d: Duration)
        ensures
            d@ == secs * NANOS_PER_SEC,
    {
        Duration { secs, nanos: 0 }
    }

    pub fn from_millis(millis: u64) -> (d: Duration)
        ensures
            d@ == millis * 1_000_000,
    {
        let nanos: u32 = (millis % 1000) as u32 * 1_000_000;
        Duration { secs: millis / 1000, nanos }
    }

    /// The whole seconds in this span.
    pub fn as_secs(&self) -> (secs: u64)
        ensures
            secs == self@ / NANOS_PER_SEC as nat,
    {
        proof {
            use_type_invariant(&*self);
        }
        self.secs
    }

    /// The nanoseconds beyond the whole seconds.
    pub fn subsec_nanos(&self) -> (nanos: u32)
        ensures
            nanos == self@ % NANOS_PER_SEC as nat,
            nanos < NANOS_PER_SEC,
    {
        proof {
            use_type_invariant(&*self);
        }
        self.nanos
    }

    pub fn is_zero(&self) -> (r: bool)
        ensures
            r == (self@ == 0),
    {
        self.secs == 0 && self.nanos == 0
    }
}

impl PartialOrd for Duration {
    fn partial_cmp(&self, other: &Duration) -> (r: Option<Ordering>) {
        proof {
            use_type_invariant(&*self);
            use_type_invariant(&*other);
        }
        if self.secs < other.secs || (self.secs == other.secs && self.nanos < other.nanos) {
            Some(Ordering::Less)
        } else if self.secs == other.secs && self.nanos == other.nanos {
            Some(Ordering::Equal)
        } else {
            Some(Ordering::Greater)
        }
    }
}

impl PartialOrdSpecImpl for Duration {
    open spec fn obeys_partial_cmp_spec() -> bool {
        true
    }

    open spec fn partial_cmp_spec(&self, other: &Duration) -> Option<Ordering> {
        if self@ < other@ {
            Some(Ordering::Less)
        } else if self@ == other@ {
            Some(Ordering::Equal)
        } else {
            Some(Ordering::Greater)
        }
    }
}

/// A point in time on a [`Clock`].
#[derive(Clone, Copy, Debug, PartialEq, Eq, Structural)]
pub struct Instant {
    secs: i64,
    nanos: u32,
}

impl View for Instant {
    type V = int;

    closed spec fn view(&self) -> int {
        self.secs * NANOS_PER_SEC + self.nanos
    }
}

impl Instant {
    #[verifier::type_invariant]
    pub closed spec fn nanos_in_range(self) -> bool {
        self.nanos < NANOS_PER_SEC
    }

    /// Every instant lies between the first and the last.
    pub proof fn lemma_in_range(self)
        requires
            self.nanos_in_range(),
        ensures
            first_instant() <= self@ <= last_instant(),
    {
    }

    /// The origin of the clock.
    pub fn origin() -> (t: Instant)
        ensures
            t@ == 0,
    {
        Instant { secs: 0, nanos: 0 }
    }

    /// The instant `d` after this one, if it is representable.
    pub fn checked_add(self, d: Duration) -> (r: Option<Instant>)
        ensures
            match r {
                Some(t) => t@ == self@ + d@ <= last_instant(),
                None => self@ + d@ > last_instant(),
            },
    {
        proof {
            use_type_invariant(&self);
            use_type_invariant(&d);
        }
        let carried: u32 = self.nanos + d.nanos;
        let carry: i128 = if carried >= NANOS_PER_SEC { 1 } else { 0 };
        let secs: i128 = self.secs as i128 + d.secs as i128 + carry;
        if secs > i64::MAX as i128 {
            None
        } else {
            let nanos: u32 = if carried >= NANOS_PER_SEC {
                carried - NANOS_PER_SEC
            } else {
                carried
            };
            Some(Instant { secs: secs as i64, nanos })
        }
    }

    /// The instant `d` before this one, if it is representable.
    pub fn checked_sub(self, d: Duration) -> (r: Option<Instant>)
        ensures
            match r {
                Some(t) => t@ == self@ - d@ >= first_instant(),
                None => self@ - d@ < first_instant(),
            },
    {
        proof {
            use_type_invariant(&self);
            use_type_invariant(&d);
        }
        let borrow: i128 = if self.nanos < d.nanos { 1 } else { 0 };
        let secs: i128 = self.secs as i128 - d.secs as i128 - borrow;
        if secs < i64::MIN as i128 {
            None
        } else {
            let nanos: u32 = if self.nanos < d.nanos {
                self.nanos + NANOS_PER_SEC - d.nanos
            } else {
                self.nanos - d.nanos
            };
            Some(Instant { secs: secs as i64, nanos })
        }
    }

    /// The time from `earlier` to this instant, zero where `earlier` is later.
    pub fn duration_since(&self, earlier: Instant) -> (d: Duration)
        ensures
            d@ == if self@ >= earlier@ { self@ - earlier@ } else { 0 },
    {
        proof {
            use_type_invariant(&*self);
            use_type_invariant(&earlier);
        }
        if *self < earlier {
            return Duration { secs: 0, nanos: 0 };
        }
        let borrow: i128 = if self.nanos < earlier.nanos { 1 } else { 0 };
        let secs: i128 = self.secs as i128 - earlier.secs as i128 - borrow;
        let nanos: u32 = if self.nanos < earlier.nanos {
            self.nanos + NANOS_PER_SEC - earlier.nanos
        } else {
            self.nanos - earlier.nanos
        };
        Duration { secs: secs as u64, nanos }
    }
}

impl PartialOrd for Instant {
    fn partial_cmp(&self, other: &Instant) -> (r: Option<Ordering>) {
        proof {
            use_type_invariant(&*self);
            use_type_invariant(&*other);
        }
        if self.secs < other.secs || (self.secs == other.secs && self.nanos < other.nanos) {
            Some(Ordering::Less)
        } else if self.secs == other.secs && self.nanos == other.nanos {
            Some(Ordering::Equal)
        } else {
            Some(Ordering::Greater)
        }
    }
}

impl PartialOrdSpecImpl for Instant {
    open spec fn obeys_partial_cmp_spec() -> bool {
        true
    }

    open spec fn partial_cmp_spec(&self, other: &Instant) -> Option<Ordering> {
        if self@ < other@ {
            Some(Ordering::Less)
        } else if self@ == other@ {
            Some(Ordering::Equal)
        } else {
            Some(Ordering::Greater)
        }
    }
}

/// Spans and points in time are compared as the numbers that they stand for.
pub proof fn law_order_is_that_of_the_numbers(a: Duration, b: Duration, s: Instant, t: Instant)
    ensures
        PartialOrdSpec::partial_cmp_spec(&a, &b) == Some(Ordering::Less) <==> a@ < b@,
        PartialOrdSpec::partial_cmp_spec(&a, &b) == Some(Ordering::Equal) <==> a@ == b@,
        PartialOrdSpec::partial_cmp_spec(&a, &b) == Some(Ordering::Greater) <==> a@ > b@,
        PartialOrdSpec::partial_cmp_spec(&s, &t) == Some(Ordering::Less) <==> s@ < t@,
        PartialOrdSpec::partial_cmp_spec(&s, &t) == Some(Ordering::Equal) <==> s@ == t@,
        PartialOrdSpec::partial_cmp_spec(&s, &t) == Some(Ordering::Greater) <==> s@ > t@,
{
}

/// Of the points in time, those can be represented that lie fewer than 2^63
/// seconds after the origin or at most as many before it; each of them in one way.
pub proof fn law_which_instants_there_are(n: int, s: Instant, t: Instant)
    requires
        s.nanos_in_range(),
        t.nanos_in_range(),
    ensures
        first_instant() == -0x8000_0000_0000_0000 * 1_000_000_000,
        last_instant() + 1 == 0x8000_0000_0000_0000 * 1_000_000_000,
        (exists|i: Instant| #[trigger] i.nanos_in_range() && i@ == n) <==> first_instant() <= n
            <= last_instant(),
        s@ == t@ ==> s == t,
{
    if first_instant() <= n <= last_instant() {
        let i = Instant {
            secs: (n / 1_000_000_000) as i64,
            nanos: (n % 1_000_000_000) as u32,
        };
        assert(i.nanos_in_range() && i@ == n);
    }
}

/// `std::time::Instant`, carried by a [`Clock`] and never looked into.
#[verifier::external_type_specification]
#[verifier::external_body]
pub struct ExStdInstant(std::time::Instant);

/// `std::time::Instant::now`: the current time. Nothing is claimed of it.
pub assume_specification[ std::time::Instant::now ]() -> std::time::Instant;

/// `std::time::Instant::elapsed`: the time since an instant. It depends on when
/// it is asked for; nothing is claimed of it.
pub assume_specification[ std::time::Instant::elapsed ](
    origin: &std::time::Instant,
) -> std::time::Duration;

/// `std::time::Duration::as_secs`: the whole seconds in a span. Nothing is
/// claimed of their number, as the span is not looked into.
pub assume_specification[ std::time::Duration::as_secs ](d: &std::time::Duration) -> u64;

/// `std::time::Duration::subsec_nanos`: the nanoseconds beyond the whole seconds
/// in a span, which do not fill a second.
pub assume_specification[ std::time::Duration::subsec_nanos ](
    d: &std::time::Duration,
) -> (nanos: u32)
    ensures
        nanos < NANOS_PER_SEC,
;

/// The instant that lies `secs` seconds and `nanos` nanoseconds after the origin,
/// the last one if that is not representable.
pub open spec fn instant_after_origin(secs: u64, nanos: u32) -> int {
    if secs > i64::MAX {
        last_instant()
    } else {
        secs * NANOS_PER_SEC + nanos
    }
}

/// Whether `t` is a time that a clock with this origin has shown: the whole
/// seconds and the nanoseconds of the time that `elapsed` gave for the origin.
pub open spec fn clock_shows(origin: std::time::Instant, t: int) -> bool {
    exists|elapsed: std::time::Duration, secs: u64, nanos: u32|
        {
            &&& #[trigger] call_ensures(std::time::Instant::elapsed, (&origin,), elapsed)
            &&& #[trigger] call_ensures(std::time::Duration::as_secs, (&elapsed,), secs)
            &&& #[trigger] call_ensures(std::time::Duration::subsec_nanos, (&elapsed,), nanos)
            &&& t == instant_after_origin(secs, nanos)
        }
}

/// A clock shows the time since its origin to the nanosecond, as long as that can
/// be represented, and the last instant from then on; it does not show less for
/// more.
pub proof fn law_clock_shows_what_has_passed(secs: u64, nanos: u32, more_secs: u64, more_nanos: u32)
    requires
        nanos < 1_000_000_000,
        more_nanos < 1_000_000_000,
    ensures
        0 <= instant_after_origin(secs, nanos) <= last_instant(),
        secs * 1_000_000_000 + nanos <= last_instant() ==> instant_after_origin(secs, nanos) == secs
            * 1_000_000_000 + nanos,
        secs * 1_000_000_000 + nanos > last_instant() ==> instant_after_origin(secs, nanos)
            == last_instant(),
        secs * 1_000_000_000 + nanos <= more_secs * 1_000_000_000 + more_nanos
            ==> instant_after_origin(secs, nanos) <= instant_after_origin(more_secs, more_nanos),
{
}

/// A clock shows what the operating system says has elapsed since its origin.
pub proof fn law_clock_shows_what_elapsed(
    origin: std::time::Instant,
    elapsed: std::time::Duration,
    secs: u64,
    nanos: u32,
)
    requires
        call_ensures(std::time::Instant::elapsed, (&origin,), elapsed),
        call_ensures(std::time::Duration::as_secs, (&elapsed,), secs),
        call_ensures(std::time::Duration::subsec_nanos, (&elapsed,), nanos),
        secs < 0x8000_0000_0000_0000,
    ensures
        clock_shows(origin, secs * 1_000_000_000 + nanos),
{
    assert(secs * 1_000_000_000 + nanos == instant_after_origin(secs, nanos));
}

/// A clock shows nothing that was not said to have elapsed since its origin.
pub proof fn law_clock_shows_nothing_else(origin: std::time::Instant, t: int)
    requires
        clock_shows(origin, t),
    ensures
        exists|elapsed: std::time::Duration, secs: u64, nanos: u32|
            {
                &&& #[trigger] call_ensures(std::time::Instant::elapsed, (&origin,), elapsed)
                &&& #[trigger] call_ensures(std::time::Duration::as_secs, (&elapsed,), secs)
                &&& #[trigger] call_ensures(std::time::Duration::subsec_nanos, (&elapsed,), nanos)
                &&& secs < 0x8000_0000_0000_0000 ==> t == secs * 1_000_000_000 + nanos
                &&& secs >= 0x8000_0000_0000_0000 ==> t == last_instant()
            },
{
}

/// A monotonic clock that counts from the moment it was started.
#[derive(Clone, Copy, Debug)]
pub struct Clock {
    origin: std::time::Instant,
}

impl View for Clock {
    type V = std::time::Instant;

    closed spec fn view(&self) -> std::time::Instant {
        self.origin
    }
}

impl Clock {
    /// A clock whose origin is the current time: what
    /// `std::time::Instant::now` gave.
    pub fn start() -> (clock: Clock)
        ensures
            call_ensures(std::time::Instant::now, (), clock@),
    {
        Clock { origin: std::time::Instant::now() }
    }

    /// The origin, on the clock of the operating system.
    pub fn std_origin(&self) -> (t: std::time::Instant)
        ensures
            t == self@,
    {
        self.origin
    }

    /// The current time.
    pub fn now(&self) -> (t: Instant)
        ensures
            clock_shows(self@, t@),
            t@ >= 0,
            exists|elapsed: std::time::Duration, secs: u64, nanos: u32|
                {
                    &&& #[trigger] call_ensures(std::time::Instant::elapsed, (&self@,), elapsed)
                    &&& #[trigger] call_ensures(std::time::Duration::as_secs, (&elapsed,), secs)
                    &&& #[trigger] call_ensures(
                        std::time::Duration::subsec_nanos,
                        (&elapsed,),
                        nanos,
                    )
                    &&& secs < 0x8000_0000_0000_0000 ==> t@ == secs * 1_000_000_000 + nanos
                    &&& secs >= 0x8000_0000_0000_0000 ==> t@ == last_instant()
                },
    {
        let elapsed = self.origin.elapsed();
        let secs: u64 = elapsed.as_secs();
        let nanos: u32 = elapsed.subsec_nanos();
        let t = if secs > i64::MAX as u64 {
            Instant { secs: i64::MAX, nanos: NANOS_PER_SEC - 1 }
        } else {
            Instant { secs: secs as i64, nanos }
        };
        assert(t@ == instant_after_origin(secs, nanos));
        t
    }
}

} // verus!

//! The texts of the errors, and the parts that they are made of.

use crate::time::{Duration, NANOS_PER_SEC};
use vstd::prelude::*;

verus! {

/// The character of a decimal digit.
pub open spec fn digit(d: nat) -> char {
    (48 + d) as char
}

/// `n` in decimal, without leading zeros.
pub open spec fn decimal(n: nat) -> Seq<char>
    decreases n,
{
    if n < 10 {
        seq![digit(n)]
    } else {
        decimal(n / 10).push(digit(n % 10))
    }
}

/// The number that a text of decimal digits stands for.
pub open spec fn value_of(text: Seq<char>) -> int
    decreases text.len(),
{
    if text.len() == 0 {
        0
    } else {
        10 * value_of(text.drop_last()) + (text.last() as int - '0' as int)
    }
}

/// A number in decimal is made of digits, does not start with a zero unless it is
/// zero, and stands for the number.
pub proof fn law_decimal_stands_for_its_number(n: nat)
    ensures
        value_of(decimal(n)) == n,
        decimal(n).len() > 0,
        forall|i: int| 0 <= i < decimal(n).len() ==> '0' <= #[trigger] decimal(n)[i] <= '9',
        n > 0 ==> decimal(n)[0] != '0',
        n == 0 ==> decimal(n).len() == 1,
    decreases n,
{
    if n >= 10 {
        law_decimal_stands_for_its_number(n / 10);
        let head = decimal(n / 10);
        assert(decimal(n).drop_last() =~= head);
    } else {
        assert(decimal(n).drop_last() =~= Seq::empty());
        reveal_with_fuel(value_of, 2);
    }
}

/// Two numbers with the same text are the same.
pub proof fn law_decimal_tells_numbers_apart(n: nat, m: nat)
    ensures
        decimal(n) == decimal(m) ==> n == m,
{
    law_decimal_stands_for_its_number(n);
    law_decimal_stands_for_its_number(m);
}

fn digit_text(d: u32) -> (text: &'static str)
    requires
        d < 10,
    ensures
        text@ == seq![digit(d as nat)],
{
    proof {
        reveal_strlit("0");
        reveal_strlit("1");
        reveal_strlit("2");
        reveal_strlit("3");
        reveal_strlit("4");
        reveal_strlit("5");
        reveal_strlit("6");
        reveal_strlit("7");
        reveal_strlit("8");
        reveal_strlit("9");
    }
    let text = match d {
        0 => "0",
        1 => "1",
        2 => "2",
        3 => "3",
        4 => "4",
        5 => "5",
        6 => "6",
        7 => "7",
        8 => "8",
        _ => "9",
    };
    assert(text@ =~= seq![digit(d as nat)]);
    text
}

/// `n` in decimal.
pub fn decimal_text(n: u32) -> (text: String)
    ensures
        text@ == decimal(n as nat),
    decreases n,
{
    if n < 10 {
        digit_text(n).to_string()
    } else {
        let mut text = decimal_text(n / 10);
        text.append(digit_text(n % 10));
        assert(text@ =~= decimal(n as nat));
        text
    }
}

/// What `{:?}` prints of the `std::time::Duration` of `secs` seconds and `nanos`
/// nanoseconds.
pub uninterp spec fn std_duration_debug(secs: u64, nanos: u32) -> Seq<char>;

/// `{:?}` of `std::time::Duration`, which depends on the span alone.
#[verifier::external_body]
fn format_std_duration(secs: u64, nanos: u32) -> (text: String)
    requires
        nanos < NANOS_PER_SEC,
    ensures
        text@ == std_duration_debug(secs, nanos),
{
    format!("{:?}", std::time::Duration::new(secs, nanos))
}

/// A span of `nanos` nanoseconds in human terms, such as `1.5s`.
pub open spec fn duration_debug(nanos: nat) -> Seq<char> {
    std_duration_debug(
        (nanos / NANOS_PER_SEC as nat) as u64,
        (nanos % NANOS_PER_SEC as nat) as u32,
    )
}

/// A span is put in human terms by its whole seconds and the nanoseconds beyond
/// them.
pub proof fn law_span_is_told_by_its_parts(secs: u64, nanos: u32)
    requires
        nanos < 1_000_000_000,
    ensures
        duration_debug((secs * 1_000_000_000 + nanos) as nat) == std_duration_debug(secs, nanos),
{
}

/// A span in human terms.
pub fn duration_text(d: Duration) -> (text: String)
    ensures
        text@ == duration_debug(d@),
{
    format_std_duration(d.as_secs(), d.subsec_nanos())
}

/// The name and the description that nix has for an error number of the
/// operating system, as in `EPERM: Operation not permitted`.
pub uninterp spec fn errno_display(code: i32) -> Seq<char>;

/// `Display` of `nix::errno::Errno`, of the number that
/// `nix::errno::Errno::from_raw` reads: the same text for the same number.
#[verifier::external_body]
pub(crate) fn format_errno(code: i32) -> (text: String)
    ensures
        text@ == errno_display(code),
{
    nix::errno::Errno::from_raw(code).to_string()
}

} // verus!

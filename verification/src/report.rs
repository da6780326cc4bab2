//! Pieces of the solar debug report: the fallback label, the lengths of day
//! and night, and how time-zone offsets and differences are written.

use vstd::prelude::*;
use crate::solar::DAY_NANOS;
use crate::text::{decimal, push_decimal};

verus! {

/// The label of the seasonal fallback by its length: 25 minutes or less is
/// the summer approximation.
pub fn fallback_label(minutes: u32) -> (s: &'static str)
    ensures
        s@ == (if minutes <= 25 { "Summer polar approximation"@ } else { "Winter polar approximation"@ }),
{
    if minutes <= 25 {
        "Summer polar approximation"
    } else {
        "Winter polar approximation"
    }
}

/// The span from the wall-clock time `from` forward to `to` (nanoseconds
/// since midnight): across midnight when `to` is not later.
pub open spec fn spec_forward_span(from: int, to: int) -> int {
    if to > from { to - from } else { DAY_NANOS - from + to }
}

pub fn forward_span(from: u64, to: u64) -> (d: u64)
    requires
        from < DAY_NANOS,
        to < DAY_NANOS,
    ensures
        d == spec_forward_span(from as int, to as int),
        0 < d <= DAY_NANOS,
{
    if to > from { to - from } else { DAY_NANOS - from + to }
}

/// Whole hours and the minutes past them of a span in nanoseconds.
pub fn hours_and_minutes(span_ns: u64) -> (r: (u64, u64))
    ensures
        r.0 == span_ns / 3_600_000_000_000,
        r.1 == (span_ns / 60_000_000_000) % 60,
{
    (span_ns / 3_600_000_000_000, (span_ns / 60_000_000_000) % 60)
}

/// `n` with at least two digits, as `{:02}` writes a non-negative number.
pub open spec fn two_digits(n: nat) -> Seq<char> {
    if n < 10 { seq!['0'] + decimal(n) } else { decimal(n) }
}

fn push_two_digits(s: &mut String, n: u64)
    ensures
        final(s)@ == old(s)@ + two_digits(n as nat),
{
    if n < 10 {
        crate::text::push_char(s, '0');
        push_decimal(s, n);
        proof {
            assert(final(s)@ =~= old(s)@ + (seq!['0'] + decimal(n as nat)));
        }
    } else {
        push_decimal(s, n);
    }
}

/// The offset `secs` from UTC as `+HH:MM`: the hours (rounded toward zero)
/// with their sign and two digits, the minutes of the remainder.
pub open spec fn spec_utc_offset(secs: int) -> Seq<char> {
    let mag = if secs < 0 { -secs } else { secs };
    let hours = mag / 3600;
    let sign = if secs < 0 && hours > 0 { '-' } else { '+' };
    let minutes = (mag % 3600) / 60;
    seq![sign] + two_digits(hours as nat) + seq![':'] + two_digits(minutes as nat)
}

pub fn format_utc_offset(secs: i32) -> (s: String)
    ensures
        s@ == spec_utc_offset(secs as int),
{
    let mag: u64 = if secs < 0 { (-(secs as i64)) as u64 } else { secs as u64 };
    let hours = mag / 3600;
    let minutes = (mag % 3600) / 60;
    let mut s = String::new();
    crate::text::push_char(&mut s, if secs < 0 && hours > 0 { '-' } else { '+' });
    push_two_digits(&mut s, hours);
    crate::text::push_char(&mut s, ':');
    push_two_digits(&mut s, minutes);
    s
}

/// The difference between the coordinates' and the local offset:
/// `+H hours`, or with the minutes `+H hours M minutes`; the hours are
/// rounded toward zero and carry a `-` only when negative.
pub open spec fn spec_time_difference(diff_secs: int) -> Seq<char> {
    let mag = if diff_secs < 0 { -diff_secs } else { diff_secs };
    let hours = mag / 3600;
    let minutes = (mag / 60) % 60;
    let hours_text = if diff_secs < 0 && hours > 0 {
        "-"@ + decimal(hours as nat)
    } else {
        "+"@ + decimal(hours as nat)
    };
    if minutes == 0 {
        hours_text + " hours"@
    } else {
        hours_text + " hours "@ + decimal(minutes as nat) + " minutes"@
    }
}

pub fn time_difference_text(diff_secs: i64) -> (s: String)
    ensures
        s@ == spec_time_difference(diff_secs as int),
{
    let mag: u64 = if diff_secs < 0 { (-(diff_secs as i128)) as u64 } else { diff_secs as u64 };
    let hours = mag / 3600;
    let minutes = (mag / 60) % 60;
    proof {
        reveal_strlit("-");
        reveal_strlit("+");
        reveal_strlit(" hours");
        reveal_strlit(" hours ");
        reveal_strlit(" minutes");
    }
    let mut s = if diff_secs < 0 && hours > 0 { String::from_str("-") } else { String::from_str("+") };
    push_decimal(&mut s, hours);
    if minutes == 0 {
        s.append(" hours");
    } else {
        s.append(" hours ");
        push_decimal(&mut s, minutes);
        s.append(" minutes");
    }
    s
}

/// Day and night cover the whole day between them: the night runs from the
/// end of sunset to the start of sunrise, the day from the end of sunrise to
/// the start of sunset, and with both windows the four spans add up to one
/// full day whenever the edges come in their natural order.
pub proof fn lemma_spans_cover_day(a: int, b: int, c: int, d: int)
    requires
        0 <= a < b < c < d < DAY_NANOS,
    ensures
        spec_forward_span(a, b) + spec_forward_span(b, c) + spec_forward_span(c, d) + spec_forward_span(d, a) == DAY_NANOS,
{
}

} // verus!

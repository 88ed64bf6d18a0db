//! TOTP code presentation and the countdown clock arithmetic.

use vstd::prelude::*;

use std::time::{Duration, SystemTime, SystemTimeError, UNIX_EPOCH};

verus! {

/// Flip the countdown to the urgent colour at this many seconds remaining.
pub const URGENT_THRESHOLD: u32 = 5;

/// Slack past the next whole second so the next read lands in the new
/// second, in nanoseconds (10 ms).
pub const BOUNDARY_SLACK_NANOS: u64 = 10_000_000;

pub const NANOS_PER_SEC: u64 = 1_000_000_000;

pub open spec fn is_ascii_digit(c: char) -> bool {
    '0' <= c && c <= '9'
}

/// Exactly six ASCII digits (six bytes that are all digits is the same
/// thing, since every ASCII digit is one byte).
pub open spec fn is_six_digit_code(s: Seq<char>) -> bool {
    s.len() == 6 && forall|i: int| 0 <= i < 6 ==> #[trigger] is_ascii_digit(s[i])
}

/// A 6-digit TOTP reads "123 456"; any other code (e.g. Steam's) is shown
/// untouched.
pub open spec fn format_code_spec(s: Seq<char>) -> Seq<char> {
    if is_six_digit_code(s) {
        s.subrange(0, 3) + seq![' '] + s.subrange(3, 6)
    } else {
        s
    }
}

pub fn format_code(code: &str) -> (r: String)
    ensures
        r@ == format_code_spec(code@),
{
    let n = code.unicode_len();
    let mut six = n == 6;
    if six {
        let mut i: usize = 0;
        while i < 6
            invariant
                n == 6,
                code@.len() == 6,
                i <= 6,
                six == forall|k: int| 0 <= k < i ==> #[trigger] is_ascii_digit(code@[k]),
            decreases 6 - i,
        {
            let c = code.get_char(i);
            proof {
                if !six {
                    let k = choose|k: int| 0 <= k < i && !is_ascii_digit(code@[k]);
                    assert(!is_ascii_digit(code@[k]));
                }
            }
            if !('0' <= c && c <= '9') {
                six = false;
            }
            proof {
                assert(code@[i as int] == c);
                if six {
                    assert forall|k: int| 0 <= k < i + 1 implies #[trigger] is_ascii_digit(code@[k]) by {
                        if k == i as int {
                            assert(is_ascii_digit(c));
                        }
                    }
                } else {
                    if !is_ascii_digit(c) {
                        assert(!is_ascii_digit(code@[i as int]));
                    }
                }
            }
            i = i + 1;
        }
    }
    if six {
        let head = code.substring_char(0, 3);
        let tail = code.substring_char(3, 6);
        let mut out = String::from_str(head);
        out.append(" ");
        out.append(tail);
        proof {
            reveal_strlit(" ");
            assert(out@ =~= format_code_spec(code@));
        }
        out
    } else {
        String::from_str(code)
    }
}

/// Seconds left in the current TOTP period at UNIX time `now` (periods are
/// aligned to the epoch, per RFC 6238).
pub open spec fn seconds_remaining_spec(now: u64, period: u32) -> u32 {
    (period - (now % (period as u64))) as u32
}

pub fn seconds_remaining_at(now: u64, period: u32) -> (r: u32)
    requires
        period > 0,
    ensures
        r == seconds_remaining_spec(now, period),
        1 <= r <= period,
{
    let p = period as u64;
    let elapsed = now % p;
    (p - elapsed) as u32
}

/// Seconds left in the current TOTP period, read off the system clock. A
/// clock set before the epoch reads as the epoch.
pub fn seconds_remaining_from(period: u32) -> (r: u32)
    requires
        period > 0,
    ensures
        1 <= r <= period,
        exists|now: u64| r == seconds_remaining_spec(now, period),
{
    let now = unix_now_secs();
    seconds_remaining_at(now, period)
}

/// The countdown shown next to a code at UNIX time `now`: seconds left in
/// the period, and whether that is few enough to show urgent.
pub fn countdown_at(now: u64, period: u32) -> (r: (u32, bool))
    requires
        period > 0,
    ensures
        r.0 == seconds_remaining_spec(now, period),
        r.1 == (r.0 <= URGENT_THRESHOLD),
{
    let rem = seconds_remaining_at(now, period);
    (rem, rem <= URGENT_THRESHOLD)
}

/// The countdown read off the system clock.
pub fn countdown(period: u32) -> (r: (u32, bool))
    requires
        period > 0,
    ensures
        1 <= r.0 <= period,
        r.1 == (r.0 <= URGENT_THRESHOLD),
        exists|now: u64| r.0 == seconds_remaining_spec(now, period),
{
    let rem = seconds_remaining_from(period);
    (rem, rem <= URGENT_THRESHOLD)
}

/// Nanoseconds from a clock reading `subsec` nanoseconds into a second
/// until just past the next whole second.
pub open spec fn delay_to_next_second_spec(subsec: u32) -> u64 {
    (NANOS_PER_SEC - subsec + BOUNDARY_SLACK_NANOS) as u64
}

pub fn delay_after_subsec(subsec: u32) -> (d: u64)
    requires
        subsec < NANOS_PER_SEC,
    ensures
        d == delay_to_next_second_spec(subsec),
{
    NANOS_PER_SEC - subsec as u64 + BOUNDARY_SLACK_NANOS
}

/// Wall-clock delay, in nanoseconds, until the next whole UNIX second plus
/// a small slack.
pub fn delay_to_next_second() -> (d: u64)
    ensures
        BOUNDARY_SLACK_NANOS < d <= NANOS_PER_SEC + BOUNDARY_SLACK_NANOS,
        exists|subsec: u32| subsec < NANOS_PER_SEC && d == delay_to_next_second_spec(subsec),
{
    let subsec = unix_now_subsec_nanos();
    delay_after_subsec(subsec)
}

/// The system clock's reading, std's `SystemTime`.
#[verifier::external_type_specification]
#[verifier::external_body]
pub struct ExSystemTime(SystemTime);

/// The error `SystemTime::duration_since` gives for a reading before the
/// reference instant.
#[verifier::external_type_specification]
#[verifier::external_body]
pub struct ExSystemTimeError(SystemTimeError);

/// std's `SystemTime::now`: the current reading of the system clock.
/// Nothing is stated of it: it is the time.
#[verifier::external_body]
fn system_now() -> SystemTime {
    SystemTime::now()
}

/// std's `SystemTime::duration_since(UNIX_EPOCH)`: the time elapsed from
/// the UNIX epoch to `t`, an error when `t` is earlier. Nothing is stated of
/// which comes back: it depends on the clock reading.
#[verifier::external_body]
fn since_unix_epoch(t: &SystemTime) -> Result<Duration, SystemTimeError> {
    t.duration_since(UNIX_EPOCH)
}

/// std's `Duration::as_secs`: the whole seconds of `d`. `Duration` is
/// opaque here, so nothing is stated of the value.
#[verifier::external_body]
fn whole_secs(d: &Duration) -> u64 {
    d.as_secs()
}

/// std's `Duration::subsec_nanos`: the fractional part of `d` in
/// nanoseconds, documented to be below one billion.
#[verifier::external_body]
fn subsec_nanos(d: &Duration) -> (n: u32)
    ensures
        n < NANOS_PER_SEC,
{
    d.subsec_nanos()
}

/// Whole seconds since the UNIX epoch; zero when the clock reads before the
/// epoch. Nothing is promised of the value: it is the time.
pub(crate) fn unix_now_secs() -> u64 {
    match since_unix_epoch(&system_now()) {
        Ok(d) => whole_secs(&d),
        Err(_) => 0,
    }
}

/// Sub-second nanoseconds of the clock since the UNIX epoch; zero when the
/// clock reads before the epoch.
fn unix_now_subsec_nanos() -> (n: u32)
    ensures
        n < NANOS_PER_SEC,
{
    match since_unix_epoch(&system_now()) {
        Ok(d) => subsec_nanos(&d),
        Err(_) => 0,
    }
}

} // verus!

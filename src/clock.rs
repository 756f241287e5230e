//! Best-effort reading of the current time.
use std::time::{Duration, SystemTime, SystemTimeError, UNIX_EPOCH};
use vstd::prelude::*;

verus! {

/// `std::time::SystemTime`, carried through as an opaque value.
#[verifier::external_type_specification]
#[verifier::external_body]
pub struct ExSystemTime(SystemTime);

/// `std::time::SystemTimeError`, carried through as an opaque value.
#[verifier::external_type_specification]
#[verifier::external_body]
pub struct ExSystemTimeError(SystemTimeError);

/// Relies on `SystemTime::now`: a reading of the system clock, of which
/// nothing is known in advance.
#[verifier::external_body]
fn clock_reading() -> SystemTime {
    SystemTime::now()
}

/// Relies on `SystemTime::duration_since`, measured from `UNIX_EPOCH`: an
/// error where `t` lies before the epoch.
#[verifier::external_body]
fn since_unix_epoch(t: &SystemTime) -> Result<Duration, SystemTimeError> {
    t.duration_since(UNIX_EPOCH)
}

/// Relies on `Duration::as_secs`: the whole seconds in `d`.
#[verifier::external_body]
fn whole_secs(d: &Duration) -> u64 {
    d.as_secs()
}

/// Relies on `Duration::subsec_millis`: the whole milliseconds in the
/// fractional part of a second of `d`, which is less than a thousand.
#[verifier::external_body]
fn fraction_millis(d: &Duration) -> (r: u32)
    ensures
        r < 1000,
{
    d.subsec_millis()
}

/// The whole milliseconds of a time since the epoch given as whole seconds
/// and the milliseconds of the fraction; 0 where there is none.
pub open spec fn millis_of(since_epoch: Option<(u64, u32)>) -> nat {
    match since_epoch {
        Some((secs, millis)) => secs as nat * 1000 + millis as nat,
        None => 0,
    }
}

/// Whether `a` comes no later than `b`, as times since the epoch given as
/// whole seconds and the milliseconds of the fraction, with no time at all
/// (a clock before the epoch) coming first.
pub open spec fn no_later(a: Option<(u64, u32)>, b: Option<(u64, u32)>) -> bool {
    match (a, b) {
        (None, _) => true,
        (Some(_), None) => false,
        (Some((s1, m1)), Some((s2, m2))) => s1 < s2 || (s1 == s2 && m1 <= m2),
    }
}

/// The whole milliseconds since the epoch, from whole seconds and the
/// milliseconds of the fraction; 0 where the clock could not be measured
/// against the epoch.
pub fn millis_since_epoch(since_epoch: Option<(u64, u32)>) -> (r: u128)
    ensures
        r == millis_of(since_epoch),
{
    match since_epoch {
        Some((secs, millis)) => secs as u128 * 1000 + millis as u128,
        None => 0,
    }
}

/// A later clock reading never gives fewer milliseconds since the epoch.
pub proof fn lemma_millis_monotonic(a: Option<(u64, u32)>, b: Option<(u64, u32)>)
    requires
        a matches Some((_, m)) ==> m < 1000,
        b matches Some((_, m)) ==> m < 1000,
        no_later(a, b),
    ensures
        millis_of(a) <= millis_of(b),
{
}

/// Milliseconds elapsed since the Unix epoch, by the system clock; 0 where
/// the clock reads earlier than the epoch. Never fails.
pub fn now() -> (r: u128)
    ensures
        r < u64::MAX as nat * 1000 + 1000,
{
    let t = clock_reading();
    let since_epoch = match since_unix_epoch(&t) {
        Ok(d) => Some((whole_secs(&d), fraction_millis(&d))),
        Err(_) => None,
    };
    millis_since_epoch(since_epoch)
}

} // verus!

//! The offset-corrected software clock.
//!
//! The device has no trusted time source of its own, so wall time is modelled
//! as the system's epoch instant plus a signed correction supplied by an
//! external controller. Civil time is a fixed UTC-3 offset; the quantity the
//! scheduler consumes is the number of seconds elapsed since that day's local
//! midnight. For a fixed offset that conversion is pure arithmetic — shift
//! the instant three hours west and reduce modulo one day — so only the
//! reading of the system clock itself is taken on trust.

use vstd::arithmetic::div_mod::lemma_mod_multiples_vanish;
use vstd::prelude::*;

verus! {

/// Seconds in one civil day.
pub const SECONDS_PER_DAY: u32 = 86400;

/// The fixed civil offset: local time lies three hours west of UTC.
pub const UTC_WEST_SHIFT_SECONDS: i64 = 10800;

/// The earliest epoch second the system clock can report (the timestamp of
/// `chrono::DateTime::<Utc>::MIN_UTC`).
pub const CIVIL_EPOCH_MIN: i64 = -8334601228800;

/// The latest epoch second the system clock can report (the timestamp of
/// `chrono::DateTime::<Utc>::MAX_UTC`, truncated to whole seconds).
pub const CIVIL_EPOCH_MAX: i64 = 8210266876799;

/// A whole multiple of one day large enough to lift any sum of two 64-bit
/// epoch values above zero, so the day reduction can run on unsigned
/// arithmetic.
pub const DAY_LIFT: i128 = 86400 * 300000000000000;

/// The epoch instants the system clock can report.
pub open spec fn epoch_in_civil_range(t: int) -> bool {
    CIVIL_EPOCH_MIN <= t <= CIVIL_EPOCH_MAX
}

/// Seconds since the last local (UTC-3) midnight of the epoch instant `t`.
///
/// Shifting the instant three hours west and reducing modulo one day is
/// exactly the civil-calendar conversion for a fixed offset: days have no
/// leap seconds under the epoch-second convention.
pub open spec fn spec_seconds_of_day(t: int) -> int {
    (t - UTC_WEST_SHIFT_SECONDS) % (SECONDS_PER_DAY as int)
}

/// Relies on `chrono::Utc::now`: the current instant in whole seconds since
/// the Unix epoch. A `DateTime<Utc>` always lies between chrono's minimum
/// and maximum representable instants, so the returned timestamp does too.
///
/// Caveat: `chrono::Utc::now` itself panics when the host clock reads
/// before the Unix epoch. That environment state cannot be excluded by a
/// precondition; it is the one residual panic path behind this library.
#[verifier::external_body]
pub(crate) fn epoch_now() -> (t: i64)
    ensures
        epoch_in_civil_range(t as int),
{
    chrono::Utc::now().timestamp()
}

/// Seconds since the last local midnight of the corrected instant
/// `epoch + offset`.
///
/// Total: even a correction that pushes the instant outside any plausible
/// calendar still yields a well-formed time of day — if the underlying
/// instant is wrong, the result is simply wrong but well-formed.
pub fn seconds_since_midnight(epoch: i64, offset: i64) -> (r: u32)
    ensures
        r == spec_seconds_of_day(epoch + offset),
        r < SECONDS_PER_DAY,
{
    let sum: i128 = epoch as i128 + offset as i128;
    let shifted: i128 = sum - UTC_WEST_SHIFT_SECONDS as i128;
    let lifted: i128 = shifted + DAY_LIFT;
    let day_seconds: u128 = (lifted as u128) % (SECONDS_PER_DAY as u128);
    proof {
        lemma_mod_multiples_vanish(300000000000000, shifted as int, SECONDS_PER_DAY as int);
    }
    day_seconds as u32
}

/// Seconds since the last local midnight of the current instant corrected
/// by `offset`. The instant itself is read from the system clock, so the
/// result is pinned only relative to some instant the clock can report.
pub fn now_seconds_since_midnight(offset: i64) -> (r: u32)
    ensures
        r < SECONDS_PER_DAY,
        exists|t: int|
            #![auto]
            epoch_in_civil_range(t) && r == spec_seconds_of_day(t + offset),
{
    let epoch = epoch_now();
    let r = seconds_since_midnight(epoch, offset);
    proof {
        assert(epoch_in_civil_range(epoch as int) && r == spec_seconds_of_day(
            epoch as int + offset,
        ));
    }
    r
}

/// The correction that makes the local clock read `client_epoch` at the
/// local instant `local_epoch`, or `None` when the difference does not fit
/// a signed 64-bit integer.
pub fn compute_clock_offset(client_epoch: i64, local_epoch: i64) -> (r: Option<i64>)
    ensures
        match r {
            Some(off) => off == client_epoch - local_epoch,
            None => !(i64::MIN <= client_epoch - local_epoch <= i64::MAX),
        },
{
    client_epoch.checked_sub(local_epoch)
}

/// Synchronizing to a client instant and immediately reading the clock at
/// that same local instant reflects the client's local time of day exactly.
pub proof fn lemma_sync_reflects_client(client_epoch: int, local_epoch: int)
    ensures
        spec_seconds_of_day(local_epoch + (client_epoch - local_epoch)) == spec_seconds_of_day(
            client_epoch,
        ),
{
}

} // verus!

//! The ambient clock.
//!
//! The cleared-or-pending marker depends on the instant a conversion runs.
//! That instant is ordinarily an explicit parameter, so callers and tests
//! can fix it; this module reads it from the machine clock for the callers
//! that want the real time.

use vstd::prelude::*;

use crate::timestamp::Timestamp;

verus! {

/// Relies on time::OffsetDateTime::now_utc and its calendar accessors: the
/// current instant's year, month number, day, hour, minute and second, in
/// coordinated universal time. The crate documents the month number as 1 to
/// 12, the day as 1 to 31, the hour as at most 23 and the minute and second
/// as at most 59; of the year, nothing is promised here.
#[verifier::external_body]
fn now_utc_parts() -> (p: (i32, u8, u8, u8, u8, u8))
    ensures
        1 <= p.1 <= 12,
        1 <= p.2 <= 31,
        p.3 <= 23,
        p.4 <= 59,
        p.5 <= 59,
{
    let now = time::OffsetDateTime::now_utc();
    (
        now.year(),
        u8::from(now.month()),
        now.day(),
        now.hour(),
        now.minute(),
        now.second(),
    )
}

/// The current instant from the machine clock, with the year clamped into
/// the four-digit range a ledger date can carry.
pub fn now_timestamp() -> (t: Timestamp)
    ensures
        t.wf(),
{
    let (y, month, day, hour, minute, second) = now_utc_parts();
    let year: u16 = if y < 1 {
        1
    } else if y > 9999 {
        9999
    } else {
        y as u16
    };
    Timestamp { year, month, day, hour, minute, second }
}

} // verus!

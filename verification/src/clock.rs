//! Reading the clock: trusted calls into the `time` crate that hand back
//! plain calendar fields, and verified validation into a `Timestamp`.

use vstd::prelude::*;

use crate::timestamp::Timestamp;

verus! {

/// Relies on `time::OffsetDateTime::now_local` and its field accessors:
/// `month` is 1 to 12, `day` 1 to 31, `hour` below 24, `minute` and
/// `second` below 60. The year is whatever the clock says. `None` when
/// the local offset cannot be determined.
#[verifier::external_body]
fn local_clock_parts() -> (r: Option<(i32, u8, u8, u8, u8, u8)>)
    ensures
        r matches Some(p) ==> 1 <= p.1 <= 12 && 1 <= p.2 <= 31 && p.3 < 24 && p.4 < 60 && p.5
            < 60,
{
    match time::OffsetDateTime::now_local() {
        Ok(t) => Some((t.year(), u8::from(t.month()), t.day(), t.hour(), t.minute(), t.second())),
        Err(_) => None,
    }
}

/// Relies on `time::OffsetDateTime::now_utc` and its field accessors, with
/// the same field ranges as the local clock.
#[verifier::external_body]
fn utc_clock_parts() -> (r: (i32, u8, u8, u8, u8, u8))
    ensures
        1 <= r.1 <= 12 && 1 <= r.2 <= 31 && r.3 < 24 && r.4 < 60 && r.5 < 60,
{
    let t = time::OffsetDateTime::now_utc();
    (t.year(), u8::from(t.month()), t.day(), t.hour(), t.minute(), t.second())
}

/// Builds a well-formed timestamp out of raw clock fields, refusing a
/// year outside four digits.
fn timestamp_from_parts(p: (i32, u8, u8, u8, u8, u8)) -> (r: Option<Timestamp>)
    requires
        1 <= p.1 <= 12,
        1 <= p.2 <= 31,
        p.3 < 24,
        p.4 < 60,
        p.5 < 60,
    ensures
        r matches Some(t) ==> t.wf(),
        0 <= p.0 <= 9999 ==> (r matches Some(t) && t.year == p.0 && t.month == p.1 && t.day == p.2
            && t.hour == p.3 && t.minute == p.4 && t.second == p.5),
{
    if p.0 < 0 || p.0 > 9999 {
        None
    } else {
        Some(
            Timestamp {
                year: p.0 as u16,
                month: p.1,
                day: p.2,
                hour: p.3,
                minute: p.4,
                second: p.5,
            },
        )
    }
}

/// The local clock as a well-formed timestamp; `None` when the local
/// offset cannot be determined or the year does not fit four digits.
pub fn now_local() -> (r: Option<Timestamp>)
    ensures
        r matches Some(t) ==> t.wf(),
{
    match local_clock_parts() {
        Some(p) => timestamp_from_parts(p),
        None => None,
    }
}

/// The UTC clock as a well-formed timestamp; `None` when the year does
/// not fit four digits.
pub fn now_utc() -> (r: Option<Timestamp>)
    ensures
        r matches Some(t) ==> t.wf(),
{
    timestamp_from_parts(utc_clock_parts())
}

} // verus!

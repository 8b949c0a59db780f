//! The wall clock, read through std.

use vstd::prelude::*;

use std::time::{Duration, SystemTime};

verus! {

/// `std::time::SystemTime`, carried through opaquely: nothing inside a
/// value of it is visible here.
#[verifier::external_type_specification]
#[verifier::external_body]
pub struct ExSystemTime(SystemTime);

/// `SystemTime::now`: whatever the system clock says; nothing is promised
/// of it.
#[verifier::external_body]
fn system_time_now() -> SystemTime {
    SystemTime::now()
}

/// `SystemTime::duration_since(UNIX_EPOCH)`, with the error (a clock set
/// before 1970) turned into `None`. Nothing is promised of the duration.
#[verifier::external_body]
fn since_epoch(t: &SystemTime) -> Option<Duration> {
    t.duration_since(std::time::UNIX_EPOCH).ok()
}

/// `Duration::as_secs`: the whole seconds of a duration. Nothing is promised
/// of the number, as the duration itself is opaque here.
#[verifier::external_body]
fn whole_secs(d: &Duration) -> u64 {
    d.as_secs()
}

/// Unix seconds from one reading of the clock: its whole seconds since 1970,
/// or 0 where the clock stood before 1970 and gave no such reading.
pub open spec fn seconds_of_reading(reading: Option<u64>) -> u64 {
    match reading {
        Some(secs) => secs,
        None => 0,
    }
}

/// Turns a reading of the clock into unix seconds: the reading's whole
/// seconds, or 0 where the clock stood before 1970.
pub fn epoch_seconds(reading: Option<u64>) -> (secs: u64)
    ensures
        secs == seconds_of_reading(reading),
{
    match reading {
        Some(s) => s,
        None => 0,
    }
}

/// The current time in unix seconds, or 0 when the clock is set before 1970.
/// It can be any number: it is whatever the machine's clock says, so no
/// clause ties it to anything; `epoch_seconds` states what is made of the
/// reading.
pub fn unix_now() -> u64 {
    let reading = match since_epoch(&system_time_now()) {
        Some(d) => Some(whole_secs(&d)),
        None => None,
    };
    epoch_seconds(reading)
}

} // verus!

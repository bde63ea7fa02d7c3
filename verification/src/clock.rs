//! The wall clock, as job timestamps record it.

use vstd::prelude::*;
use std::time::{Duration, SystemTime, UNIX_EPOCH};

verus! {

#[verifier::external_type_specification]
#[verifier::external_body]
pub struct ExSystemTime(SystemTime);

/// `SystemTime::now`. The time is not described.
#[verifier::external_body]
fn system_now() -> (r: SystemTime) {
    SystemTime::now()
}

/// `SystemTime::duration_since(UNIX_EPOCH)`: `None` for a time before the epoch.
/// The duration is not described.
#[verifier::external_body]
fn since_unix_epoch(t: &SystemTime) -> (r: Option<Duration>) {
    match t.duration_since(UNIX_EPOCH) {
        Ok(d) => Some(d),
        Err(_) => None,
    }
}

/// `Duration::as_millis`. The count is not described.
#[verifier::external_body]
fn duration_millis(d: &Duration) -> (r: u128) {
    d.as_millis()
}

/// A millisecond count as stored: its low 64 bits read as a signed number.
pub fn millis_to_i64(ms: u128) -> (r: i64)
    ensures
        r == ms as i64,
{
    #[verifier::truncate]
    (ms as i64)
}

/// The timestamp for a reading of the clock: the milliseconds since the epoch
/// as stored, or zero where the clock stands before the epoch (`None`).
pub fn millis_or_zero(ms: Option<u128>) -> (r: i64)
    ensures
        r == match ms {
            Some(m) => m as i64,
            None => 0i64,
        },
{
    match ms {
        Some(m) => millis_to_i64(m),
        None => 0,
    }
}

/// Milliseconds since the Unix epoch (zero for a clock set before it), as
/// [`millis_or_zero`] makes of the clock's reading. Nothing is stated of the
/// value, which the clock decides.
pub fn now_ms() -> (r: i64) {
    let ms = match since_unix_epoch(&system_now()) {
        Some(d) => Some(duration_millis(&d)),
        None => None,
    };
    millis_or_zero(ms)
}

} // verus!

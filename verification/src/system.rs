//! Fresh identifiers from the `uuid` crate, and the clock from std.
use vstd::prelude::*;

verus! {

/// `uuid::Uuid::new_v4().to_string()`: a fresh random identifier, written in the
/// hyphenated form of 36 characters with hyphens after the 8th, 12th, 16th and 20th
/// hex digit. Which digits they are is random and left unsaid.
#[verifier::external_body]
pub(crate) fn new_uuid() -> (r: String)
    ensures
        r@.len() == 36,
        r@[8] == '-' && r@[13] == '-' && r@[18] == '-' && r@[23] == '-',
{
    uuid::Uuid::new_v4().to_string()
}

/// The clock as std reads it; declared so that verified code can carry a reading.
#[verifier::external_type_specification]
#[verifier::external_body]
pub struct ExSystemTime(std::time::SystemTime);

/// `std::time::SystemTime::now()`: the clock's reading. It depends on the clock, so
/// nothing is stated of it.
#[verifier::external_body]
fn system_time_now() -> std::time::SystemTime {
    std::time::SystemTime::now()
}

/// `SystemTime::duration_since(UNIX_EPOCH)`: how long after the Unix epoch `t` lies,
/// or `None` for a reading before the epoch. The reading is opaque here, so nothing
/// more is stated.
#[verifier::external_body]
fn since_unix_epoch(t: &std::time::SystemTime) -> Option<std::time::Duration> {
    match t.duration_since(std::time::UNIX_EPOCH) {
        Ok(d) => Some(d),
        Err(_) => None,
    }
}

/// `Duration::as_millis`: the whole milliseconds of `d`. The duration is opaque here,
/// so nothing is stated of it.
#[verifier::external_body]
fn duration_millis(d: &std::time::Duration) -> u128 {
    d.as_millis()
}

/// The current time in milliseconds since the Unix epoch. A clock that reads before the
/// epoch counts as the epoch itself, and one past the range of `i64` as its end, so
/// that reading the time never fails.
pub(crate) fn now_millis() -> (r: i64)
    ensures
        r >= 0,
{
    let t = system_time_now();
    match since_unix_epoch(&t) {
        Some(d) => {
            let ms = duration_millis(&d);
            if ms <= 9_223_372_036_854_775_807u128 {
                ms as i64
            } else {
                i64::MAX
            }
        },
        None => 0,
    }
}

} // verus!

use vstd::prelude::*;

verus! {

#[verifier::external_type_specification]
#[verifier::external_body]
pub struct ExSystemTime(std::time::SystemTime);

/// Relies on `std::time::SystemTime::now`: the system clock's reading.
#[verifier::external_body]
fn clock_now() -> (r: std::time::SystemTime)
{
    std::time::SystemTime::now()
}

/// Relies on `std::time::SystemTime::duration_since`, taken at the Unix
/// epoch: the time elapsed since the epoch, or `None` when the reading is
/// earlier.
#[verifier::external_body]
fn since_epoch(t: &std::time::SystemTime) -> (r: Option<core::time::Duration>)
{
    t.duration_since(std::time::UNIX_EPOCH).ok()
}

/// Relies on `core::time::Duration::as_secs`: the whole seconds of a duration.
#[verifier::external_body]
fn whole_seconds(d: &core::time::Duration) -> (r: u64)
{
    d.as_secs()
}

/// Seconds since the epoch from a clock reading in whole seconds: the
/// reading itself, or zero when the clock reads earlier than the epoch.
pub fn seconds_or_zero(reading: Option<u64>) -> (r: u64)
    ensures
        r == match reading {
            Some(s) => s,
            None => 0,
        },
{
    match reading {
        Some(s) => s,
        None => 0,
    }
}

/// The current time in whole seconds since the Unix epoch; zero when the
/// system clock reads earlier than the epoch.
pub fn timestamp() -> (r: u64)
{
    let now = clock_now();
    let reading = match since_epoch(&now) {
        Some(d) => Some(whole_seconds(&d)),
        None => None,
    };
    seconds_or_zero(reading)
}

} // verus!

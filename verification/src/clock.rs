//! Wall-clock readings in whole seconds and milliseconds since the Unix epoch.
use vstd::prelude::*;

verus! {

/// `std::time::SystemTime`, an opaque reading of the system clock.
#[verifier::external_type_specification]
#[verifier::external_body]
pub struct ExSystemTime(std::time::SystemTime);

/// `std::time::SystemTime::now` reads the system clock. Nothing is promised of
/// the reading.
#[verifier::external_body]
fn system_time() -> std::time::SystemTime {
    std::time::SystemTime::now()
}

/// `std::time::SystemTime::duration_since` the Unix epoch, as whole seconds
/// and the nanoseconds beyond them, of which there are less than a second's
/// worth; nothing where the clock stands before the epoch.
#[verifier::external_body]
fn since_epoch(time: &std::time::SystemTime) -> (r: Option<(u64, u32)>)
    ensures
        r matches Some((_, nanos)) ==> nanos < 1_000_000_000,
{
    time.duration_since(std::time::UNIX_EPOCH).ok().map(|d| (d.as_secs(), d.subsec_nanos()))
}

/// Milliseconds of a reading: zero before the epoch, and the low 64 bits of
/// the full count after it.
pub fn clock_millis(reading: Option<(u64, u32)>) -> (r: u64)
    ensures
        r == (match reading {
            Some((secs, nanos)) => (secs as int * 1000 + nanos as int / 1_000_000)
                % 0x1_0000_0000_0000_0000,
            None => 0,
        }),
{
    match reading {
        Some((secs, nanos)) => {
            let millis: u128 = secs as u128 * 1000 + (nanos / 1_000_000) as u128;
            assert((millis as u64) as u128 == millis % 0x1_0000_0000_0000_0000u128) by (bit_vector);
            #[verifier::truncate]
            let low: u64 = millis as u64;
            low
        },
        None => 0,
    }
}

/// Seconds of a reading: zero before the epoch.
pub fn clock_seconds(reading: Option<(u64, u32)>) -> (r: u64)
    ensures
        r == (match reading {
            Some((secs, _)) => secs,
            None => 0,
        }),
{
    match reading {
        Some((secs, _)) => secs,
        None => 0,
    }
}

/// The current time in milliseconds since the Unix epoch, whatever the clock
/// says.
pub fn now_ms() -> u64 {
    clock_millis(since_epoch(&system_time()))
}

/// The current time in seconds since the Unix epoch, whatever the clock says.
pub fn now_unix_seconds() -> u64 {
    clock_seconds(since_epoch(&system_time()))
}

} // verus!

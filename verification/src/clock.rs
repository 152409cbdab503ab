//! The clock.
use std::time::{SystemTime, UNIX_EPOCH};
use vstd::prelude::*;

verus! {

/// How many nanoseconds a second has.
pub const NANOS_PER_SEC: u32 = 1_000_000_000;

/// A reading of the clock, as seconds and nanoseconds since the epoch; `None` before the epoch.
/// The nanoseconds are less than a second.
pub open spec fn is_reading(reading: Option<(u64, u32)>) -> bool {
    match reading {
        Some((_, nanos)) => nanos < NANOS_PER_SEC,
        None => true,
    }
}

/// The whole seconds of a reading: its fraction is dropped, and a clock before the epoch counts as
/// standing at it.
pub open spec fn secs_of(reading: Option<(u64, u32)>) -> u64 {
    match reading {
        Some((secs, _)) => secs,
        None => 0,
    }
}

/// `std::time::SystemTime::now`, as its distance from the epoch. Claimed: the nanoseconds are less
/// than a second. Nothing is claimed of where the clock stands: it may stand anywhere, and may be
/// set back between two readings.
#[verifier::external_body]
fn since_epoch() -> (reading: Option<(u64, u32)>)
    ensures
        is_reading(reading),
{
    match SystemTime::now().duration_since(UNIX_EPOCH) {
        Ok(distance) => Some((distance.as_secs(), distance.subsec_nanos())),
        Err(_) => None,
    }
}

/// The system clock gave this reading, just as it stands.
pub closed spec fn given_by_clock(reading: Option<(u64, u32)>) -> bool {
    call_ensures(since_epoch, (), reading)
}

/// The whole seconds of a reading of the clock.
pub fn whole_secs(reading: Option<(u64, u32)>) -> (secs: u64)
    ensures
        secs == secs_of(reading),
{
    match reading {
        Some((secs, _)) => secs,
        None => 0,
    }
}

/// Reads the clock: seconds and nanoseconds since the epoch, `None` before the epoch. The reading
/// is handed on as the system clock gave it.
pub fn read_clock() -> (reading: Option<(u64, u32)>)
    ensures
        given_by_clock(reading),
        is_reading(reading),
{
    since_epoch()
}

/// Current Unix timestamp in seconds: the whole seconds of a reading of the clock.
pub fn now_secs() -> (secs: u64)
    ensures
        exists|reading: Option<(u64, u32)>|
            call_ensures(read_clock, (), reading) && secs == #[trigger] secs_of(reading),
{
    let reading = read_clock();
    let secs: u64 = whole_secs(reading);
    assert(secs == secs_of(reading));
    secs
}

/// A reading is given by the clock where `since_epoch` returns it, and in no other case.
proof fn law_the_clock_is_the_system_clock(reading: Option<(u64, u32)>)
    ensures
        given_by_clock(reading) <==> call_ensures(since_epoch, (), reading),
{
}

/// What `read_clock` returns is what the system clock gave, unchanged.
pub proof fn law_readings_are_unchanged(reading: Option<(u64, u32)>)
    requires
        call_ensures(read_clock, (), reading),
    ensures
        given_by_clock(reading),
{
}

/// The whole seconds of a reading are the seconds of the reading itself, and 0 before the epoch.
pub proof fn law_whole_secs(reading: Option<(u64, u32)>, secs: u64)
    requires
        call_ensures(whole_secs, (reading,), secs),
    ensures
        reading matches Some((whole, _)) ==> secs == whole,
        reading is None ==> secs == 0,
{
}

/// What `now_secs` returns is the whole seconds of a reading that the system clock gave.
pub proof fn law_now_is_read_off_the_clock(secs: u64)
    requires
        call_ensures(now_secs, (), secs),
    ensures
        exists|reading: Option<(u64, u32)>| #[trigger]
            given_by_clock(reading) && match reading {
                Some((whole, _)) => secs == whole,
                None => secs == 0,
            },
{
    let reading = choose|reading: Option<(u64, u32)>|
        call_ensures(read_clock, (), reading) && secs == #[trigger] secs_of(reading);
    assert(given_by_clock(reading));
}

} // verus!

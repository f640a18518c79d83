//! The two clocks the library reads.

use vstd::prelude::*;

verus! {

/// The current time in whole seconds since the Unix epoch, as
/// `chrono::Utc::now` reports it. Nothing is claimed of the value: two reads
/// may differ in either direction.
#[verifier::external_body]
pub(crate) fn utc_now() -> (secs: i64) {
    chrono::Utc::now().timestamp()
}

/// The current time in whole seconds since the Unix epoch, as
/// `std::time::SystemTime::now` reports it; 0 when the system clock is set
/// before the epoch. Nothing is claimed of the value.
#[verifier::external_body]
pub(crate) fn unix_now() -> (secs: u64) {
    match std::time::SystemTime::now().duration_since(std::time::UNIX_EPOCH) {
        Ok(elapsed) => elapsed.as_secs(),
        Err(_) => 0,
    }
}

/// The time of day where the program runs, as `chrono::Local::now` reports
/// it and `format("%H:%M:%S")` writes it. It depends on the clock and on
/// the time zone of the machine; nothing is claimed of it.
#[verifier::external_body]
pub(crate) fn local_time_text() -> (text: String) {
    chrono::Local::now().format("%H:%M:%S").to_string()
}

/// The current time in whole seconds since the Unix epoch.
pub fn now() -> i64 {
    utc_now()
}

/// The current time of the system clock in whole seconds since the Unix
/// epoch, the time the connectivity cache is kept in.
pub fn system_now() -> u64 {
    unix_now()
}

} // verus!

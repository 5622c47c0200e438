//! The wall clock, read as whole seconds since the Unix epoch.
use vstd::prelude::*;

verus! {

/// `std::time::SystemTime`, held opaque.
#[verifier::external_type_specification]
#[verifier::external_body]
pub struct ExSystemTime(std::time::SystemTime);

/// `std::time::SystemTime::now`. Nothing is claimed of the time it reads.
#[verifier::external_body]
fn system_now() -> (t: std::time::SystemTime) {
    std::time::SystemTime::now()
}

/// `std::time::SystemTime::duration_since` from the Unix epoch; `None` for a
/// time before the epoch. Nothing is claimed of the duration.
#[verifier::external_body]
fn since_epoch(t: &std::time::SystemTime) -> (d: Option<std::time::Duration>) {
    t.duration_since(std::time::UNIX_EPOCH).ok()
}

/// `std::time::Duration::as_secs`. Nothing is claimed of the count.
#[verifier::external_body]
fn whole_seconds(d: &std::time::Duration) -> (s: u64) {
    d.as_secs()
}

/// Seconds since the Unix epoch by the system clock; 0 when the clock reads
/// a time before the epoch.
pub fn current_timestamp() -> (s: u64) {
    let now = system_now();
    match since_epoch(&now) {
        Some(d) => whole_seconds(&d),
        None => 0,
    }
}

} // verus!

use vstd::prelude::*;

verus! {

/// Relies on chrono::Utc::now / timestamp_millis: a wall-clock reading in
/// milliseconds since the Unix epoch. Nothing is assumed of the value, which
/// depends on the machine's clock.
#[verifier::external_body]
fn utc_timestamp_millis() -> i64 {
    chrono::Utc::now().timestamp_millis()
}

/// The current wall-clock time in milliseconds since the Unix epoch, clamped
/// below at zero. No contract can pin a clock reading; callers that need to
/// reason about time take the reading as an argument.
pub fn now_millis() -> u64 {
    let raw = utc_timestamp_millis();
    if raw < 0 {
        0
    } else {
        raw as u64
    }
}

} // verus!

use vstd::prelude::*;

verus! {

/// Relies on std::time::SystemTime::now, read as whole seconds since the
/// Unix epoch; a clock before the epoch reads as zero.  Nothing can be
/// promised of a wall clock.
#[verifier::external_body]
pub fn now_timestamp() -> u64 {
    match std::time::SystemTime::now().duration_since(std::time::UNIX_EPOCH) {
        Ok(d) => d.as_secs(),
        Err(_) => 0,
    }
}

/// Relies on std::time::SystemTime::now, read as whole seconds since the
/// Unix epoch; a clock before the epoch reads as zero.
#[verifier::external_body]
pub fn now_secs() -> u64 {
    match std::time::SystemTime::now().duration_since(std::time::UNIX_EPOCH) {
        Ok(d) => d.as_secs(),
        Err(_) => 0,
    }
}

/// Relies on std::time::SystemTime::now, read as whole milliseconds since
/// the Unix epoch; a clock before the epoch reads as zero.
#[verifier::external_body]
pub(crate) fn now_millis() -> u64 {
    match std::time::SystemTime::now().duration_since(std::time::UNIX_EPOCH) {
        Ok(d) => d.as_millis() as u64,
        Err(_) => 0,
    }
}

} // verus!

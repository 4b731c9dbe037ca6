//! The one place where the library reads the wall clock.
//!
//! Every timed structure takes the instant as an explicit argument and is
//! verified for every value of it; the public convenience wrappers read the
//! clock here and pass it on.

use vstd::prelude::*;

verus! {

/// Relies on std::time::SystemTime::now, read as whole seconds since the
/// Unix epoch; a clock before the epoch reads as zero. Nothing can be
/// promised of the value: the callers hold for every instant.
#[verifier::external_body]
pub fn now_seconds() -> u64 {
    match std::time::SystemTime::now().duration_since(std::time::UNIX_EPOCH) {
        Ok(d) => d.as_secs(),
        Err(_) => 0,
    }
}

} // verus!

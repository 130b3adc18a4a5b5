//! The two things an identifier is made from that are not computed: the
//! time of day and random bytes.

use vstd::prelude::*;

verus! {

/// The current time as whole seconds since the Unix epoch, read through
/// `chrono::Utc::now().timestamp()`. Nothing is claimed about the value:
/// it is whatever the system clock says.
#[verifier::external_body]
pub(crate) fn unix_seconds() -> i64 {
    chrono::Utc::now().timestamp()
}

/// `N` bytes drawn from the thread-local generator of `rand` through
/// `Rng::fill`. Nothing is claimed about the bytes.
#[verifier::external_body]
pub(crate) fn random_bytes<const N: usize>() -> [u8; N] {
    let mut bytes = [0u8; N];
    rand::Rng::fill(&mut rand::thread_rng(), &mut bytes[..]);
    bytes
}

} // verus!

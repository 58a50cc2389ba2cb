//! The entropy source behind the random-byte instruction.
use vstd::prelude::*;

use rand::Rng;

verus! {

/// Relies on rand::Rng::gen_range over the full byte range 0..=255: the
/// range is never empty, so the call cannot panic, and nothing can be
/// promised about the returned value.
#[verifier::external_body]
pub(crate) fn random_byte() -> u8 {
    rand::thread_rng().gen_range(0..=255u8)
}

} // verus!

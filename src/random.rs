use vstd::prelude::*;

verus! {

/// Relies on `rand::thread_rng` and `rand::RngCore::next_u32`: a fresh draw from
/// the thread-local generator. Nothing is known of its value.
#[verifier::external_body]
pub(crate) fn random_u32() -> (r: u32) {
    rand::RngCore::next_u32(&mut rand::thread_rng())
}

} // verus!

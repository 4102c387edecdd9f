use vstd::prelude::*;

verus! {

/// A byte drawn by `rand::random`, from the thread-local generator that the
/// operating system seeds. Every byte can come back, so nothing is stated of
/// the result.
#[verifier::external_body]
pub(crate) fn random_byte() -> u8 {
    rand::random::<u8>()
}

} // verus!

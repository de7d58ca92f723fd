use vstd::prelude::*;
use rand::{RngCore, SeedableRng};

verus! {

/// `rand::rngs::StdRng`, seeded by `from_entropy` and read by `fill_bytes`:
/// as many bytes as asked for. Nothing is said of their values.
#[verifier::external_body]
pub(crate) fn random_bytes(n: usize) -> (bytes: Vec<u8>)
    ensures
        bytes@.len() == n,
{
    let mut rng = rand::rngs::StdRng::from_entropy();
    let mut bytes = vec![0u8; n];
    rng.fill_bytes(&mut bytes);
    bytes
}

} // verus!

use vstd::prelude::*;

verus! {

/// `what` with each byte xor-ed against `key`, the key repeating from its
/// start whenever it runs out.
pub open spec fn mixed(what: Seq<u8>, key: Seq<u8>) -> Seq<u8> {
    Seq::new(what.len(), |i: int| what[i] ^ key[i % (key.len() as int)])
}

/// The cyclic xor transform. It obscures the callback URL against the magic
/// tag and pads a fetched key against the nonce of its request.
///
/// An empty key can mix nothing but the empty input.
pub fn xor(what: &[u8], key: &[u8]) -> (out: Vec<u8>)
    requires
        what@.len() > 0 ==> key@.len() > 0,
    ensures
        out@ == mixed(what@, key@),
{
    let mut out: Vec<u8> = Vec::new();
    let mut i: usize = 0;
    while i < what.len()
        invariant
            i <= what@.len(),
            what@.len() > 0 ==> key@.len() > 0,
            out@.len() == i,
            forall|j: int| 0 <= j < i ==> out@[j] == what@[j] ^ key@[j % (key@.len() as int)],
        decreases what@.len() - i,
    {
        out.push(what[i] ^ key[i % key.len()]);
        i += 1;
    }
    assert(out@ =~= mixed(what@, key@));
    out
}

proof fn xor_cancels(a: u8, b: u8)
    ensures
        (a ^ b) ^ b == a,
{
    assert((a ^ b) ^ b == a) by (bit_vector);
}

/// Mixing twice with the same key gives the input back: whatever was obscured
/// with a key is recovered with it, whatever its length.
pub proof fn mix_is_its_own_inverse(what: Seq<u8>, key: Seq<u8>)
    requires
        what.len() > 0 ==> key.len() > 0,
    ensures
        mixed(mixed(what, key), key) == what,
{
    assert forall|i: int| 0 <= i < what.len() implies mixed(mixed(what, key), key)[i]
        == what[i] by {
        xor_cancels(what[i], key[i % (key.len() as int)]);
    }
    assert(mixed(mixed(what, key), key) =~= what);
}

} // verus!

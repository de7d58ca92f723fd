use vstd::prelude::*;
use crate::error::PlayfairError;

verus! {

/// Memory cost of the key derivation, in kibibytes.
pub const M_COST: u32 = 19_456;

/// Number of passes of the key derivation.
pub const T_COST: u32 = 2;

/// Degree of parallelism of the key derivation.
pub const P_COST: u32 = 1;

/// Bytes in a derived cipher key.
pub const KEY_LEN: usize = 32;

/// The output of Argon2id, version 0x13, for a password, a salt, the three
/// cost parameters and an output length, without secret key or associated
/// data.
pub uninterp spec fn argon2id(
    password: Seq<u8>,
    salt: Seq<u8>,
    m_cost: u32,
    t_cost: u32,
    p_cost: u32,
    out_len: nat,
) -> Seq<u8>;

/// The inputs that Argon2 works on: enough memory for the lanes, at least
/// one pass, a salt of at least 8 bytes, an output of at least 4, and
/// nothing longer than 32 bits can count.
pub open spec fn argon2_accepts(
    password_len: nat,
    salt_len: nat,
    m_cost: u32,
    t_cost: u32,
    p_cost: u32,
    out_len: nat,
) -> bool {
    &&& m_cost >= 8
    &&& m_cost >= 8 * p_cost
    &&& t_cost >= 1
    &&& 1 <= p_cost <= 0xFF_FFFF
    &&& 4 <= out_len <= 0xFFFF_FFFF
    &&& password_len <= 0xFFFF_FFFF
    &&& 8 <= salt_len <= 0xFFFF_FFFF
}

/// `argon2::Params::new` followed by `argon2::Argon2::hash_password_into`,
/// for the algorithm Argon2id in version 0x13. The two refuse exactly the
/// inputs outside `argon2_accepts`; on the others the output buffer, of the
/// length asked for, holds the hash, which depends on the arguments alone.
/// The parallelism is kept below 2^29, where the crate's own comparison with
/// the memory cost cannot overflow.
#[verifier::external_body]
fn argon2id_hash(
    password: &[u8],
    salt: &[u8],
    m_cost: u32,
    t_cost: u32,
    p_cost: u32,
    out_len: usize,
) -> (key: Option<Vec<u8>>)
    requires
        p_cost < 0x2000_0000,
    ensures
        key.is_some() == argon2_accepts(
            password@.len(),
            salt@.len(),
            m_cost,
            t_cost,
            p_cost,
            out_len as nat,
        ),
        key matches Some(k) ==> k@.len() == out_len && k@ == argon2id(
            password@,
            salt@,
            m_cost,
            t_cost,
            p_cost,
            out_len as nat,
        ),
{
    let params = argon2::Params::new(m_cost, t_cost, p_cost, Some(out_len)).ok()?;
    let hasher = argon2::Argon2::new(argon2::Algorithm::Argon2id, argon2::Version::V0x13, params);
    let mut out = vec![0u8; out_len];
    hasher.hash_password_into(password, salt, &mut out).ok()?;
    Some(out)
}

/// The key that a passphrase and a salt derive, of `out_len` bytes, under the
/// pinned parameters; nothing where the derivation refuses the lengths.
pub open spec fn derived_key(pass: Seq<u8>, salt: Seq<u8>, out_len: nat) -> Option<Seq<u8>> {
    if argon2_accepts(pass.len(), salt.len(), M_COST, T_COST, P_COST, out_len) {
        Some(argon2id(pass, salt, M_COST, T_COST, P_COST, out_len))
    } else {
        None
    }
}

/// Whether the derivation works on lengths like these: a salt of 8 bytes or
/// more, an output of 4 or more, and none of the three beyond 32 bits.
pub open spec fn derivable(pass_len: nat, salt_len: nat, out_len: nat) -> bool {
    &&& 4 <= out_len <= 0xFFFF_FFFF
    &&& pass_len <= 0xFFFF_FFFF
    &&& 8 <= salt_len <= 0xFFFF_FFFF
}

/// Stretches a passphrase and a salt into a key of `out_len` bytes with
/// Argon2id, version 0x13, 19 MiB of memory, two passes and one lane. The
/// parameters are written out so that a change of the hashing library's
/// defaults cannot change the keys of containers that exist.
///
/// Fails with `KeyDerivationFailure` exactly where the lengths are out of the
/// algorithm's range.
pub fn derive_key(pass: &[u8], salt: &[u8], out_len: usize) -> (key: Result<Vec<u8>, PlayfairError>)
    ensures
        key.is_ok() == derivable(pass@.len(), salt@.len(), out_len as nat),
        key matches Ok(k) ==> k@.len() == out_len && derived_key(pass@, salt@, out_len as nat)
            == Some(k@),
        key matches Err(e) ==> e == PlayfairError::KeyDerivationFailure && derived_key(
            pass@,
            salt@,
            out_len as nat,
        ).is_none(),
{
    match argon2id_hash(pass, salt, M_COST, T_COST, P_COST, out_len) {
        Some(k) => Ok(k),
        None => Err(PlayfairError::KeyDerivationFailure),
    }
}

/// The derivation is a function of its inputs: equal passphrases, salts and
/// lengths derive equal keys, or fail alike.
pub proof fn derivation_is_deterministic(
    pass_a: Seq<u8>,
    salt_a: Seq<u8>,
    len_a: nat,
    pass_b: Seq<u8>,
    salt_b: Seq<u8>,
    len_b: nat,
)
    requires
        pass_a == pass_b,
        salt_a == salt_b,
        len_a == len_b,
    ensures
        derived_key(pass_a, salt_a, len_a) == derived_key(pass_b, salt_b, len_b),
{
}

} // verus!

use vstd::prelude::*;
use vstd::slice::slice_subrange;
use crate::cipher::{decrypt, decrypt_outcome, encrypt_outcome, encrypt_with};
use crate::entropy::random_bytes;
use crate::error::{agrees, PlayfairError};
use crate::mixer::{mixed, xor};
use crate::retrieval::{hmac_sha256, key_request, recover_key, response_outcome, KeyRequest};
use crate::secrets::Secrets;
use crate::sizing::{encrypted_size, IV_LEN, SALT_LEN};

verus! {

/// The longest callback URL that a container can hold: its length is stored
/// in one byte.
pub const MAX_URL_LEN: usize = 255;

/// The bytes of a container: the magic tag, one byte with the URL's length,
/// the URL mixed with the magic tag, and the encrypted payload.
pub open spec fn container_bytes(magic: Seq<u8>, url: Seq<u8>, payload: Seq<u8>) -> Seq<u8> {
    magic + seq![url.len() as u8] + mixed(url, magic) + payload
}

/// Whether `what` starts with the magic tag.
pub open spec fn has_magic(what: Seq<u8>, magic: Seq<u8>) -> bool {
    what.len() >= magic.len() && what.subrange(0, magic.len() as int) == magic
}

/// Whether `what`, which starts with the magic tag, goes on with a length
/// byte and as many bytes of URL as that byte says.
pub open spec fn is_framed(what: Seq<u8>, magic: Seq<u8>) -> bool {
    what.len() > magic.len() && what.len() >= magic.len() + 1 + what[magic.len() as int]
}

/// Where the payload of a framed container starts.
pub open spec fn payload_start(what: Seq<u8>, magic: Seq<u8>) -> int {
    magic.len() + 1 + what[magic.len() as int]
}

/// The callback URL that a framed container holds.
pub open spec fn stored_url(what: Seq<u8>, magic: Seq<u8>) -> Seq<u8> {
    mixed(what.subrange(magic.len() as int + 1, payload_start(what, magic)), magic)
}

/// The encrypted payload that a framed container holds: all that follows the
/// URL.
pub open spec fn stored_payload(what: Seq<u8>, magic: Seq<u8>) -> Seq<u8> {
    what.subrange(payload_start(what, magic), what.len() as int)
}

/// Why a container cannot be opened at all, if so: without the magic tag at
/// its start it is not one, and one that ends before its URL does is damaged.
pub open spec fn framing_fault(what: Seq<u8>, magic: Seq<u8>) -> Option<PlayfairError> {
    if !has_magic(what, magic) {
        Some(PlayfairError::BadMagic)
    } else if !is_framed(what, magic) {
        Some(PlayfairError::InvalidKeyOrData)
    } else {
        None
    }
}

/// The container of a plaintext for a passphrase, a callback URL, a salt and
/// an initialization vector. A URL of more than 255 bytes does not fit its
/// length byte and is refused, as is a container too large for the machine.
pub open spec fn pack_outcome(
    magic: Seq<u8>,
    what: Seq<u8>,
    key: Seq<u8>,
    url: Seq<u8>,
    salt: Seq<u8>,
    iv: Seq<u8>,
) -> Result<Seq<u8>, PlayfairError> {
    if url.len() > 255 || magic.len() + 1 + url.len() + encrypted_size(what.len()) > usize::MAX {
        Err(PlayfairError::SizingOrIoFailure)
    } else {
        match encrypt_outcome(what, key, salt, iv) {
            Err(e) => Err(e),
            Ok(payload) => Ok(container_bytes(magic, url, payload)),
        }
    }
}

/// The plaintext of a container under a passphrase.
pub open spec fn unpack_outcome(magic: Seq<u8>, what: Seq<u8>, key: Seq<u8>) -> Result<
    Seq<u8>,
    PlayfairError,
> {
    match framing_fault(what, magic) {
        Some(e) => Err(e),
        None => decrypt_outcome(stored_payload(what, magic), key),
    }
}

/// The plaintext of a container whose passphrase was asked of the key server
/// with `nonce`: `response` is the reply's body, or nothing where the request
/// could not be sent or the server reported a failure.
pub open spec fn remote_unpack_outcome(
    magic: Seq<u8>,
    hmac_key: Seq<u8>,
    what: Seq<u8>,
    nonce: Seq<u8>,
    response: Option<Seq<u8>>,
) -> Result<Seq<u8>, PlayfairError> {
    match framing_fault(what, magic) {
        Some(e) => Err(e),
        None => match response {
            None => Err(PlayfairError::NetworkFailure),
            Some(body) => match response_outcome(body, nonce, hmac_sha256(hmac_key, nonce)) {
                Err(e) => Err(e),
                Ok(key) => decrypt_outcome(stored_payload(what, magic), key),
            },
        },
    }
}

/// A container that was put together from its parts is framed, and holds the
/// URL and the payload that went in.
pub proof fn container_holds_its_parts(magic: Seq<u8>, url: Seq<u8>, payload: Seq<u8>)
    requires
        magic.len() > 0,
        url.len() <= 255,
    ensures
        framing_fault(container_bytes(magic, url, payload), magic).is_none(),
        stored_url(container_bytes(magic, url, payload), magic) == url,
        stored_payload(container_bytes(magic, url, payload), magic) == payload,
        container_bytes(magic, url, payload).len() == magic.len() + 1 + url.len() + payload.len(),
{
    let c = container_bytes(magic, url, payload);
    let m = magic.len() as int;
    assert(c.subrange(0, m) =~= magic);
    assert(c[m] == url.len() as u8);
    assert(c.subrange(m + 1, m + 1 + url.len()) =~= mixed(url, magic));
    assert(c.subrange(m + 1 + url.len(), c.len() as int) =~= payload);
    crate::mixer::mix_is_its_own_inverse(url, magic);
}

/// Whatever the passphrase, bytes that do not start with the magic tag are
/// refused as such, and nothing is decrypted.
pub proof fn bad_magic_is_refused(magic: Seq<u8>, what: Seq<u8>, key: Seq<u8>)
    requires
        !has_magic(what, magic),
    ensures
        unpack_outcome(magic, what, key) == Err::<Seq<u8>, PlayfairError>(PlayfairError::BadMagic),
{
}

/// A container that starts with the magic tag fails to unpack in one way
/// only, as long as the passphrase is one that the key derivation takes:
/// whichever of its bytes were changed, the error is `InvalidKeyOrData`, the
/// one that a wrong passphrase gives too.
pub proof fn damage_shows_as_one_error(magic: Seq<u8>, what: Seq<u8>, key: Seq<u8>)
    requires
        has_magic(what, magic),
        key.len() <= 0xFFFF_FFFF,
    ensures
        unpack_outcome(magic, what, key).is_ok() || unpack_outcome(magic, what, key) == Err::<
            Seq<u8>,
            PlayfairError,
        >(PlayfairError::InvalidKeyOrData),
{
}

/// Without the magic tag no reply of a key server opens anything either.
pub proof fn bad_magic_is_refused_remotely(
    magic: Seq<u8>,
    hmac_key: Seq<u8>,
    what: Seq<u8>,
    nonce: Seq<u8>,
    response: Option<Seq<u8>>,
)
    requires
        !has_magic(what, magic),
    ensures
        remote_unpack_outcome(magic, hmac_key, what, nonce, response) == Err::<
            Seq<u8>,
            PlayfairError,
        >(PlayfairError::BadMagic),
{
}

/// Whether `what` starts with `magic`.
fn starts_with(what: &[u8], magic: &[u8]) -> (yes: bool)
    ensures
        yes == has_magic(what@, magic@),
{
    if what.len() < magic.len() {
        return false;
    }
    let mut i: usize = 0;
    while i < magic.len()
        invariant
            i <= magic@.len() <= what@.len(),
            forall|j: int| 0 <= j < i ==> what@[j] == magic@[j],
        decreases magic@.len() - i,
    {
        if what[i] != magic[i] {
            assert(what@.subrange(0, magic@.len() as int)[i as int] != magic@[i as int]);
            return false;
        }
        i += 1;
    }
    assert(what@.subrange(0, magic@.len() as int) =~= magic@);
    true
}

/// Finds where the payload of a container starts, or says why the container
/// cannot be opened.
pub fn locate_payload(what: &[u8], magic: &[u8]) -> (start: Result<usize, PlayfairError>)
    ensures
        match start {
            Ok(at) => framing_fault(what@, magic@).is_none() && at == payload_start(what@, magic@)
                && magic@.len() < at <= what@.len(),
            Err(e) => framing_fault(what@, magic@) == Some(e),
        },
{
    if !starts_with(what, magic) {
        return Err(PlayfairError::BadMagic);
    }
    if what.len() == magic.len() {
        return Err(PlayfairError::InvalidKeyOrData);
    }
    let url_len: usize = what[magic.len()] as usize;
    if what.len() - magic.len() - 1 < url_len {
        return Err(PlayfairError::InvalidKeyOrData);
    }
    Ok(magic.len() + 1 + url_len)
}

/// Packs a plaintext into a container with the salt and the initialization
/// vector given. Unpacking the container under the same passphrase gives the
/// plaintext back, and the container's payload has exactly the size that the
/// sizing formula gives.
pub fn pack_with(
    what: &[u8],
    key: &[u8],
    url: &[u8],
    secrets: &Secrets,
    salt: &[u8],
    iv: &[u8],
) -> (container: Result<Vec<u8>, PlayfairError>)
    requires
        secrets.wf(),
        salt@.len() == 16,
        iv@.len() == 16,
    ensures
        agrees(container, pack_outcome(secrets.magic@, what@, key@, url@, salt@, iv@)),
        container.is_ok() == (url@.len() <= 255 && secrets.magic@.len() + 1 + url@.len()
            + encrypted_size(what@.len()) <= usize::MAX && key@.len() <= 0xFFFF_FFFF),
        container matches Ok(c) ==> {
            &&& c@.len() == secrets.magic@.len() + 1 + url@.len() + encrypted_size(what@.len())
            &&& framing_fault(c@, secrets.magic@).is_none()
            &&& stored_url(c@, secrets.magic@) == url@
            &&& stored_payload(c@, secrets.magic@).len() == encrypted_size(what@.len())
            &&& unpack_outcome(secrets.magic@, c@, key@) == Ok::<Seq<u8>, PlayfairError>(what@)
        },
{
    let magic = secrets.magic.as_slice();
    if url.len() > MAX_URL_LEN || what.len() > usize::MAX - 48 {
        return Err(PlayfairError::SizingOrIoFailure);
    }
    let payload_size: usize = what.len() + (16 - what.len() % 16) + 32;
    if magic.len() > usize::MAX - payload_size || magic.len() + payload_size > usize::MAX - 1
        - url.len() {
        return Err(PlayfairError::SizingOrIoFailure);
    }
    let url_xored = xor(url, magic);
    match encrypt_with(what, key, salt, iv) {
        Err(e) => Err(e),
        Ok(payload) => {
            let mut out: Vec<u8> = Vec::new();
            out.extend_from_slice(magic);
            out.push(url.len() as u8);
            out.extend_from_slice(url_xored.as_slice());
            out.extend_from_slice(payload.as_slice());
            proof {
                assert(out@ =~= container_bytes(magic@, url@, payload@));
                container_holds_its_parts(magic@, url@, payload@);
            }
            Ok(out)
        },
    }
}

/// Packs a plaintext into a container, with a salt and an initialization
/// vector drawn afresh. The container holds the callback URL, mixed with the
/// magic tag, and the plaintext encrypted under the passphrase; unpacking it
/// under the same passphrase gives the plaintext back.
///
/// Fails with `SizingOrIoFailure` where the URL is longer than 255 bytes or
/// the container too large for the machine, and with `KeyDerivationFailure`
/// where the passphrase is longer than the derivation takes.
pub fn pack(what: &[u8], key: &[u8], url: &[u8], secrets: &Secrets) -> (container: Result<
    Vec<u8>,
    PlayfairError,
>)
    requires
        secrets.wf(),
    ensures
        container.is_ok() == (url@.len() <= 255 && secrets.magic@.len() + 1 + url@.len()
            + encrypted_size(what@.len()) <= usize::MAX && key@.len() <= 0xFFFF_FFFF),
        container matches Err(e) ==> e == (if url@.len() > 255 || secrets.magic@.len() + 1
            + url@.len() + encrypted_size(what@.len()) > usize::MAX {
            PlayfairError::SizingOrIoFailure
        } else {
            PlayfairError::KeyDerivationFailure
        }),
        container matches Ok(c) ==> {
            &&& c@.len() == secrets.magic@.len() + 1 + url@.len() + encrypted_size(what@.len())
            &&& framing_fault(c@, secrets.magic@).is_none()
            &&& stored_url(c@, secrets.magic@) == url@
            &&& stored_payload(c@, secrets.magic@).len() == encrypted_size(what@.len())
            &&& pack_outcome(
                secrets.magic@,
                what@,
                key@,
                url@,
                stored_payload(c@, secrets.magic@).subrange(0, 16),
                stored_payload(c@, secrets.magic@).subrange(16, 32),
            ) == Ok::<Seq<u8>, PlayfairError>(c@)
            &&& unpack_outcome(secrets.magic@, c@, key@) == Ok::<Seq<u8>, PlayfairError>(what@)
        },
{
    let salt = random_bytes(SALT_LEN);
    let iv = random_bytes(IV_LEN);
    let container = pack_with(what, key, url, secrets, salt.as_slice(), iv.as_slice());
    proof {
        if let Ok(c) = &container {
            let payload = encrypt_outcome(what@, key@, salt@, iv@).unwrap();
            container_holds_its_parts(secrets.magic@, url@, payload);
            assert(payload.subrange(0, 16) =~= salt@);
            assert(payload.subrange(16, 32) =~= iv@);
        }
    }
    container
}

/// Unpacks a container under a passphrase: checks the magic tag, skips the
/// callback URL and decrypts the payload. A wrong passphrase and damaged
/// bytes give the same error.
pub fn unpack(what: &[u8], key: &[u8], secrets: &Secrets) -> (plaintext: Result<
    Vec<u8>,
    PlayfairError,
>)
    ensures
        agrees(plaintext, unpack_outcome(secrets.magic@, what@, key@)),
{
    match locate_payload(what, secrets.magic.as_slice()) {
        Err(e) => Err(e),
        Ok(at) => decrypt(slice_subrange(what, at, what.len()), key),
    }
}

/// The request by which the passphrase of a container is asked of its key
/// server: to the callback URL that the container holds, with a nonce drawn
/// for this request. A container that cannot be opened gives its error and
/// no request.
pub fn unpack_request(what: &[u8], secrets: &Secrets) -> (request: Result<KeyRequest, PlayfairError>)
    requires
        secrets.wf(),
    ensures
        match request {
            Ok(r) => {
                &&& framing_fault(what@, secrets.magic@).is_none()
                &&& r.url@ == stored_url(what@, secrets.magic@)
                &&& r.user_agent@ == secrets.user_agent@
                &&& r.nonce@.len() == 16
                &&& r.nonce_header@ == crate::hexcode::hex_upper(r.nonce@)
            },
            Err(e) => framing_fault(what@, secrets.magic@) == Some(e),
        },
{
    let magic = secrets.magic.as_slice();
    match locate_payload(what, magic) {
        Err(e) => Err(e),
        Ok(at) => {
            let url = xor(slice_subrange(what, magic.len() + 1, at), magic);
            Ok(key_request(url.as_slice(), secrets.user_agent.as_slice()))
        },
    }
}

/// Unpacks a container with what came back for its key request: `response`
/// is the reply's body, or nothing where the request could not be sent or
/// the server reported a failure. The reply is checked against `nonce`, the
/// nonce of the request, before the passphrase in it is used.
pub fn unpack_with_response(
    what: &[u8],
    nonce: &[u8],
    response: Option<&[u8]>,
    secrets: &Secrets,
) -> (plaintext: Result<Vec<u8>, PlayfairError>)
    requires
        nonce@.len() > 0,
    ensures
        agrees(
            plaintext,
            remote_unpack_outcome(
                secrets.magic@,
                secrets.hmac_key@,
                what@,
                nonce@,
                match response {
                    Some(body) => Some(body@),
                    None => None,
                },
            ),
        ),
{
    match locate_payload(what, secrets.magic.as_slice()) {
        Err(e) => Err(e),
        Ok(at) => match response {
            None => Err(PlayfairError::NetworkFailure),
            Some(body) => match recover_key(body, nonce, secrets.hmac_key.as_slice()) {
                Err(e) => Err(e),
                Ok(key) => decrypt(slice_subrange(what, at, what.len()), key.as_slice()),
            },
        },
    }
}

} // verus!

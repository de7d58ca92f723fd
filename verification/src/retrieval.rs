use vstd::prelude::*;
use vstd::slice::slice_subrange;
use crate::entropy::random_bytes;
use crate::error::{agrees, PlayfairError};
use crate::hexcode::{decode, encode_upper, hex_decoded, hex_upper};
use crate::mixer::{mixed, xor};
use hmac::Mac;

verus! {

/// Bytes in the nonce of a key request.
pub const NONCE_LEN: usize = 16;

/// Hexadecimal digits of the tag that ends a key server's reply.
pub const TAG_HEX_LEN: usize = 64;

/// The HMAC-SHA256 tag of a message under a key: 32 bytes.
pub uninterp spec fn hmac_sha256(key: Seq<u8>, message: Seq<u8>) -> Seq<u8>;

/// `hmac::Hmac::<sha2::Sha256>`, made by `Mac::new_from_slice`, fed by
/// `Mac::update` and closed by `Mac::verify_slice`, which compares in
/// constant time: whether `tag` is the HMAC-SHA256 tag of `message` under
/// `key`. HMAC takes a key of any length.
#[verifier::external_body]
fn tag_verifies(key: &[u8], message: &[u8], tag: &[u8]) -> (genuine: bool)
    ensures
        genuine == (tag@ == hmac_sha256(key@, message@)),
{
    let mut mac = hmac::Hmac::<sha2::Sha256>::new_from_slice(key).unwrap();
    mac.update(message);
    mac.verify_slice(tag).is_ok()
}

/// What a client sends to the key server: a GET to `url`, with the header
/// `User-Agent` set to `user_agent` and the header `X-Cache` set to
/// `nonce_header`, the nonce in upper-case hexadecimal.
pub struct KeyRequest {
    pub url: Vec<u8>,
    pub user_agent: Vec<u8>,
    pub nonce: Vec<u8>,
    pub nonce_header: Vec<u8>,
}

/// The request that asks for the passphrase of a container whose callback
/// URL is `url`, bound to `nonce`.
pub fn key_request_with(url: &[u8], user_agent: &[u8], nonce: &[u8]) -> (request: KeyRequest)
    ensures
        request.url@ == url@,
        request.user_agent@ == user_agent@,
        request.nonce@ == nonce@,
        request.nonce_header@ == hex_upper(nonce@),
        request.nonce_header@.len() == 2 * nonce@.len(),
{
    let mut url_copy: Vec<u8> = Vec::new();
    url_copy.extend_from_slice(url);
    let mut agent: Vec<u8> = Vec::new();
    agent.extend_from_slice(user_agent);
    let mut nonce_copy: Vec<u8> = Vec::new();
    nonce_copy.extend_from_slice(nonce);
    KeyRequest { url: url_copy, user_agent: agent, nonce: nonce_copy, nonce_header: encode_upper(nonce) }
}

/// The request that asks for the passphrase of a container whose callback
/// URL is `url`, bound to a nonce of 16 bytes drawn for this request alone.
pub fn key_request(url: &[u8], user_agent: &[u8]) -> (request: KeyRequest)
    ensures
        request.url@ == url@,
        request.user_agent@ == user_agent@,
        request.nonce@.len() == 16,
        request.nonce_header@ == hex_upper(request.nonce@),
        request.nonce_header@.len() == 32,
{
    let nonce = random_bytes(NONCE_LEN);
    key_request_with(url, user_agent, nonce.as_slice())
}

/// The tag that a reply carries: the bytes that its last 64 characters stand
/// for. A reply of 64 characters or fewer has no room for a key, and one
/// whose end is not hexadecimal carries no tag: both are bad replies.
pub open spec fn carried_tag(response: Seq<u8>) -> Result<Seq<u8>, PlayfairError> {
    if response.len() <= 64 {
        Err(PlayfairError::BadResponse)
    } else {
        match hex_decoded(response.subrange(response.len() - 64, response.len() as int)) {
            None => Err(PlayfairError::BadResponse),
            Some(tag) => Ok(tag),
        }
    }
}

/// The passphrase in a reply whose tag was checked: without a genuine tag
/// nothing of the reply is trusted. With one, the characters before the tag
/// must be hexadecimal, and the bytes they stand for, mixed with the nonce,
/// are the passphrase.
pub open spec fn carried_key(response: Seq<u8>, nonce: Seq<u8>, genuine: bool) -> Result<
    Seq<u8>,
    PlayfairError,
> {
    if !genuine {
        Err(PlayfairError::AuthenticationFailure)
    } else {
        match hex_decoded(response.subrange(0, response.len() - 64)) {
            None => Err(PlayfairError::BadResponse),
            Some(masked) => Ok(mixed(masked, nonce)),
        }
    }
}

/// What a reply yields for the nonce of its request, given the tag that the
/// reply ought to carry.
pub open spec fn response_outcome(response: Seq<u8>, nonce: Seq<u8>, expected_tag: Seq<u8>) -> Result<
    Seq<u8>,
    PlayfairError,
> {
    match carried_tag(response) {
        Err(e) => Err(e),
        Ok(tag) => carried_key(response, nonce, tag == expected_tag),
    }
}

/// Reads the tag off the end of a reply.
pub fn response_tag(response: &[u8]) -> (tag: Result<Vec<u8>, PlayfairError>)
    ensures
        agrees(tag, carried_tag(response@)),
{
    if response.len() <= TAG_HEX_LEN {
        return Err(PlayfairError::BadResponse);
    }
    let tail = slice_subrange(response, response.len() - TAG_HEX_LEN, response.len());
    match decode(tail) {
        None => Err(PlayfairError::BadResponse),
        Some(tag) => Ok(tag),
    }
}

/// Takes the passphrase out of a reply, once it is known whether the reply's
/// tag is `genuine`.
pub fn key_from_response(response: &[u8], nonce: &[u8], genuine: bool) -> (key: Result<
    Vec<u8>,
    PlayfairError,
>)
    requires
        response@.len() > 64,
        nonce@.len() > 0,
    ensures
        agrees(key, carried_key(response@, nonce@, genuine)),
{
    if !genuine {
        return Err(PlayfairError::AuthenticationFailure);
    }
    let head = slice_subrange(response, 0, response.len() - TAG_HEX_LEN);
    match decode(head) {
        None => Err(PlayfairError::BadResponse),
        Some(masked) => Ok(xor(masked.as_slice(), nonce)),
    }
}

/// Checks a key server's reply against the nonce of its request and gives
/// the passphrase that it carries. The tag at the reply's end must be the
/// HMAC-SHA256 tag of the nonce under the shared secret, or the reply is
/// refused before any of it is used.
pub fn recover_key(response: &[u8], nonce: &[u8], hmac_key: &[u8]) -> (key: Result<
    Vec<u8>,
    PlayfairError,
>)
    requires
        nonce@.len() > 0,
    ensures
        agrees(key, response_outcome(response@, nonce@, hmac_sha256(hmac_key@, nonce@))),
{
    match response_tag(response) {
        Err(e) => Err(e),
        Ok(tag) => {
            let genuine = tag_verifies(hmac_key, nonce, tag.as_slice());
            key_from_response(response, nonce, genuine)
        },
    }
}

/// A reply whose last 64 characters are hexadecimal but stand for another
/// tag than the expected one is refused as not authentic, whatever the
/// characters before them hold.
pub proof fn forged_tag_is_refused(response: Seq<u8>, nonce: Seq<u8>, expected_tag: Seq<u8>)
    requires
        response.len() > 64,
        hex_decoded(response.subrange(response.len() - 64, response.len() as int)).is_some(),
        hex_decoded(response.subrange(response.len() - 64, response.len() as int))
            != Some(expected_tag),
    ensures
        response_outcome(response, nonce, expected_tag) == Err::<Seq<u8>, PlayfairError>(
            PlayfairError::AuthenticationFailure,
        ),
{
}

/// A reply that is accepted for one nonce is refused as not authentic for
/// any nonce whose tag under the shared secret is another one.
pub proof fn replayed_response_is_refused(
    response: Seq<u8>,
    hmac_key: Seq<u8>,
    nonce_a: Seq<u8>,
    nonce_b: Seq<u8>,
)
    requires
        response_outcome(response, nonce_a, hmac_sha256(hmac_key, nonce_a)).is_ok(),
        hmac_sha256(hmac_key, nonce_a) != hmac_sha256(hmac_key, nonce_b),
    ensures
        response_outcome(response, nonce_b, hmac_sha256(hmac_key, nonce_b)) == Err::<
            Seq<u8>,
            PlayfairError,
        >(PlayfairError::AuthenticationFailure),
{
}

/// A reply is accepted only with the expected tag at its end.
pub proof fn accepted_response_carries_the_tag(
    response: Seq<u8>,
    nonce: Seq<u8>,
    expected_tag: Seq<u8>,
)
    requires
        response_outcome(response, nonce, expected_tag).is_ok(),
    ensures
        response.len() > 64,
        hex_decoded(response.subrange(response.len() - 64, response.len() as int)) == Some(
            expected_tag,
        ),
{
}

} // verus!

use vstd::prelude::*;

verus! {

/// Why an operation of the engine gave up. Every failure ends the operation;
/// nothing is retried and no partial output is handed out.
#[derive(Clone, Copy, Debug, PartialEq, Eq, Structural)]
pub enum PlayfairError {
    /// The container does not start with the magic tag.
    BadMagic,
    /// The key server's reply is too short or is not hexadecimal.
    BadResponse,
    /// The tag at the end of the key server's reply does not match the nonce.
    AuthenticationFailure,
    /// The request could not be sent, or the server answered with a failure.
    NetworkFailure,
    /// The cipher or the padding rejected the input: a wrong passphrase and
    /// damaged bytes are deliberately not told apart.
    InvalidKeyOrData,
    /// The key derivation refused its parameters.
    KeyDerivationFailure,
    /// The container cannot be laid out: a length does not fit its field.
    SizingOrIoFailure,
}

impl PlayfairError {
    /// The words for each kind of failure.
    pub open spec fn text(self) -> Seq<char> {
        match self {
            PlayfairError::BadMagic => "Bad magic"@,
            PlayfairError::BadResponse => "Bad response"@,
            PlayfairError::AuthenticationFailure => "Bad response signature"@,
            PlayfairError::NetworkFailure => "Key request failed"@,
            PlayfairError::InvalidKeyOrData => "Invalid key"@,
            PlayfairError::KeyDerivationFailure => "Failed to derive key"@,
            PlayfairError::SizingOrIoFailure => "Encryption failed"@,
        }
    }

    /// A short message for the failure, for callers that print one. A wrong
    /// passphrase and damaged data share theirs.
    pub fn message(&self) -> (words: &'static str)
        ensures
            words@ == self.text(),
    {
        match *self {
            PlayfairError::BadMagic => "Bad magic",
            PlayfairError::BadResponse => "Bad response",
            PlayfairError::AuthenticationFailure => "Bad response signature",
            PlayfairError::NetworkFailure => "Key request failed",
            PlayfairError::InvalidKeyOrData => "Invalid key",
            PlayfairError::KeyDerivationFailure => "Failed to derive key",
            PlayfairError::SizingOrIoFailure => "Encryption failed",
        }
    }
}

/// Whether a result that was computed is the outcome that a contract names:
/// the same bytes, or the same error.
pub open spec fn agrees(got: Result<Vec<u8>, PlayfairError>, outcome: Result<Seq<u8>, PlayfairError>) -> bool {
    match got {
        Ok(bytes) => outcome == Ok::<Seq<u8>, PlayfairError>(bytes@),
        Err(e) => outcome == Err::<Seq<u8>, PlayfairError>(e),
    }
}

} // verus!

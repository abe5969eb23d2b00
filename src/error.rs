use vstd::prelude::*;

verus! {

/// The ways an operation on a secret container can fail.
#[derive(Debug, Clone, Copy, PartialEq, Eq, Structural)]
pub enum SecretError {
    /// The authentication tag did not verify: the ciphertext, the nonce or
    /// the key does not match.
    AuthenticationFailure,
    /// A key view was asked of a buffer whose length is not the cipher's key
    /// length.
    InvalidKeyLength,
    /// An operation needed more room than the buffer had reserved.
    BufferExhausted,
}

} // verus!

use vstd::prelude::*;
use chacha20poly1305::aead::{Aead, KeyInit};
use chacha20poly1305::{Key, XChaCha8Poly1305, XNonce};

verus! {

/// The length in bytes of a cipher key.
pub const KEY_LENGTH: usize = 32;

/// The length in bytes of an extended nonce.
pub const XNONCE_LENGTH: usize = 24;

/// The length in bytes of an authentication tag.
pub const TAG_LENGTH: usize = 16;

/// What XChaCha8-Poly1305 produces from a key, a nonce and a plaintext, with
/// no associated data: the encrypted message followed by its tag.
pub uninterp spec fn xchacha8_seal(key: Seq<u8>, nonce: Seq<u8>, plaintext: Seq<u8>) -> Seq<u8>;

/// The longest message the cipher can take: its keystream counts 64-byte
/// blocks in 32 bits, and one block goes to the authenticator's key, which
/// leaves `u32::MAX - 1` blocks for the message.
pub const MAX_MESSAGE_LENGTH: u64 = 274877906816;

/// Whether a message of `len` bytes is short enough for the cipher.
pub open spec fn within_cipher_limit(len: nat) -> bool {
    len <= MAX_MESSAGE_LENGTH
}

/// Relies on `chacha20poly1305`'s `XChaCha8Poly1305` through `Aead::encrypt`:
/// on a message within the keystream's reach it returns the message
/// encrypted in place followed by a 16-byte tag.
#[verifier::external_body]
pub(crate) fn seal(key: &[u8], nonce: &[u8; 24], plaintext: &[u8]) -> (r: Option<Vec<u8>>)
    requires
        key@.len() == KEY_LENGTH,
        within_cipher_limit(plaintext@.len()),
    ensures
        r is Some,
        r matches Some(c) ==> c@ == xchacha8_seal(key@, nonce@, plaintext@)
            && c@.len() == plaintext@.len() + TAG_LENGTH,
{
    let cipher = XChaCha8Poly1305::new(Key::from_slice(key));
    cipher.encrypt(XNonce::from_slice(nonce), plaintext).ok()
}

/// Whether `r` holds exactly the plaintext `p`.
pub open spec fn holds_plaintext(r: Option<Vec<u8>>, p: Seq<u8>) -> bool {
    r matches Some(q) && q@ == p
}

/// Relies on `chacha20poly1305`'s `XChaCha8Poly1305` through `Aead::decrypt`:
/// it returns a plaintext only where the tag verifies, which makes the input
/// exactly what sealing that plaintext gives, with the 16-byte tag cut off,
/// and it opens whatever sealing gave.
#[verifier::external_body]
pub(crate) fn open(key: &[u8], nonce: &[u8; 24], ciphertext: &[u8]) -> (r: Option<Vec<u8>>)
    requires
        key@.len() == KEY_LENGTH,
        ciphertext@.len() <= MAX_MESSAGE_LENGTH + TAG_LENGTH,
    ensures
        r matches Some(p) ==> within_cipher_limit(p@.len())
            && ciphertext@ == xchacha8_seal(key@, nonce@, p@)
            && ciphertext@.len() == p@.len() + TAG_LENGTH,
        forall|p: Seq<u8>| holds_plaintext(r, p) <== within_cipher_limit(p.len())
            && ciphertext@ == #[trigger] xchacha8_seal(key@, nonce@, p),
{
    let cipher = XChaCha8Poly1305::new(Key::from_slice(key));
    cipher.decrypt(XNonce::from_slice(nonce), ciphertext).ok()
}

} // verus!

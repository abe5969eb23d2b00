//! Zeroizing containers for secrets held in memory, and an authenticated,
//! encrypted cell that keeps a fixed-size secret sealed while it is not in use.
use vstd::prelude::*;

mod error;
mod wipe;
mod random;
mod cipher;
mod array;
mod bytes;
mod encrypted;

pub use error::SecretError;
pub use array::ZeroizeArray;
pub use bytes::{ZeroizeBytesArray, ZeroizeBytes};
pub use cipher::{holds_plaintext, within_cipher_limit, xchacha8_seal, KEY_LENGTH, MAX_MESSAGE_LENGTH, TAG_LENGTH, XNONCE_LENGTH};
pub use encrypted::EncryptedMem;
pub use wipe::{zeroed, lemma_zeroed_idempotent};

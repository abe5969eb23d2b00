use vstd::prelude::*;
use crate::array::ZeroizeArray;
use crate::bytes::{ZeroizeBytes, ZeroizeBytesArray};
use crate::cipher::{
    open, seal, within_cipher_limit, xchacha8_seal, KEY_LENGTH, MAX_MESSAGE_LENGTH, TAG_LENGTH,
    XNONCE_LENGTH,
};
use crate::error::SecretError;
use crate::random::fill_random;
use crate::wipe::{wipe_slice, zeroed};

verus! {

/// A secret of `N` bytes kept encrypted in memory under a key supplied on each
/// call, with a 24-byte nonce drawn once, when the cell is made.
pub struct EncryptedMem<const N: usize> {
    ciphertext: ZeroizeBytesArray<N>,
    xnonce: [u8; 24],
    sealed: Ghost<Option<(Seq<u8>, Seq<u8>)>>,
}

impl<const N: usize> View for EncryptedMem<N> {
    /// The nonce and the stored ciphertext.
    type V = (Seq<u8>, Seq<u8>);

    closed spec fn view(&self) -> (Seq<u8>, Seq<u8>) {
        (self.xnonce@, self.ciphertext@)
    }
}

impl<const N: usize> EncryptedMem<N> {
    /// The key and the plaintext of the last successful `encrypt` on this
    /// cell, or `None` where it holds no ciphertext of its own making.
    pub closed spec fn sealed(&self) -> Option<(Seq<u8>, Seq<u8>)> {
        self.sealed@
    }

    /// The room that the ciphertext buffer reserved.
    pub closed spec fn capacity(&self) -> nat {
        self.ciphertext.capacity()
    }

    /// The stored ciphertext is what sealing the recorded plaintext under the
    /// recorded key and the cell's nonce gives.
    pub closed spec fn wf(&self) -> bool {
        &&& self.xnonce@.len() == 24
        &&& self.sealed@ matches Some((k, p)) ==> {
            &&& k.len() == KEY_LENGTH
            &&& p.len() == N
            &&& within_cipher_limit(p.len())
            &&& self.ciphertext@ == xchacha8_seal(k, self.xnonce@, p)
            &&& self.ciphertext@.len() == N + TAG_LENGTH
        }
    }

    /// Round trip: a cell sealed by `encrypt` under `key` holds exactly what
    /// sealing its plaintext under that key and its nonce gives, for a
    /// plaintext the cipher accepts, so `decrypt` with the same key returns
    /// that plaintext.
    pub proof fn lemma_round_trip(&self, key: Seq<u8>, plaintext: Seq<u8>)
        requires
            self.wf(),
            self.sealed() == Some((key, plaintext)),
        ensures
            key.len() == KEY_LENGTH,
            plaintext.len() == N,
            within_cipher_limit(plaintext.len()),
            self@.1 == xchacha8_seal(key, self@.0, plaintext),
            self@.1.len() == N + TAG_LENGTH,
    {
    }

    /// An empty cell with room for `N` bytes and a tag, and a fresh nonce.
    pub fn new() -> (r: Self)
        requires
            N + TAG_LENGTH <= usize::MAX,
        ensures
            r.wf(),
            r@.0.len() == XNONCE_LENGTH,
            r@.1 == Seq::<u8>::empty(),
            r.sealed() is None,
            r.capacity() == N + TAG_LENGTH,
    {
        let mut buffer = [0u8; 24];
        fill_random(&mut buffer);
        Self::with_staged_nonce(&mut buffer, 0)
    }

    /// An empty cell with room for `N` bytes, a tag and `capacity` bytes more,
    /// and a fresh nonce.
    pub fn new_with_added_capacity(capacity: usize) -> (r: Self)
        requires
            N + TAG_LENGTH + capacity <= usize::MAX,
        ensures
            r.wf(),
            r@.0.len() == XNONCE_LENGTH,
            r@.1 == Seq::<u8>::empty(),
            r.sealed() is None,
            r.capacity() == N + TAG_LENGTH + capacity,
    {
        let mut buffer = [0u8; 24];
        fill_random(&mut buffer);
        Self::with_staged_nonce(&mut buffer, capacity)
    }

    /// An empty cell with room for `N` bytes, a tag and `capacity` bytes more,
    /// whose nonce is the one staged in `nonce`; the staging buffer is wiped
    /// once it has been copied.
    pub fn with_staged_nonce(nonce: &mut [u8; 24], capacity: usize) -> (r: Self)
        requires
            N + TAG_LENGTH + capacity <= usize::MAX,
        ensures
            r.wf(),
            r@.0 == old(nonce)@,
            r@.0.len() == XNONCE_LENGTH,
            r@.1 == Seq::<u8>::empty(),
            r.sealed() is None,
            r.capacity() == N + TAG_LENGTH + capacity,
            final(nonce)@ == zeroed(old(nonce)@),
    {
        let xnonce = *nonce;
        wipe_slice(nonce);
        EncryptedMem {
            ciphertext: ZeroizeBytesArray::with_additional_capacity(TAG_LENGTH + capacity),
            xnonce,
            sealed: Ghost(None),
        }
    }

    /// A cell rebuilt from a nonce and a ciphertext that were stored or sent
    /// side by side.
    pub fn from_parts(xnonce: [u8; 24], ciphertext: ZeroizeBytesArray<N>) -> (r: Self)
        ensures
            r.wf(),
            r@ == (xnonce@, ciphertext@),
            r@.0.len() == XNONCE_LENGTH,
            r.sealed() is None,
            r.capacity() == ciphertext.capacity(),
    {
        EncryptedMem { ciphertext, xnonce, sealed: Ghost(None) }
    }

    /// The stored ciphertext, for a caller that stores or sends it.
    pub fn ciphertext(&self) -> (r: &ZeroizeBytesArray<N>)
        ensures
            r@ == self@.1,
            r.capacity() == self.capacity(),
    {
        &self.ciphertext
    }

    /// The cell's nonce, which goes with the ciphertext wherever it is sent.
    pub fn nonce(&self) -> (r: [u8; 24])
        ensures
            r@ == self@.0,
    {
        self.xnonce
    }

    /// Seals `plaintext` under `key` and the cell's nonce, with no associated
    /// data, replacing (and wiping) the ciphertext held before. The plaintext
    /// stays with the caller. Fails with `InvalidKeyLength` on a key that is
    /// not 32 bytes long, and with `BufferExhausted` where `N` is beyond the
    /// cipher's limit or the ciphertext buffer has no room for `N` bytes and a
    /// tag; the cell is then unchanged.
    pub fn encrypt(&mut self, plaintext: &ZeroizeArray<N>, key: &[u8]) -> (r: Result<
        &mut Self,
        SecretError,
    >)
        requires
            old(self).wf(),
        ensures
            key@.len() != KEY_LENGTH ==> r == Err::<&mut Self, SecretError>(
                SecretError::InvalidKeyLength,
            ),
            key@.len() == KEY_LENGTH && !(within_cipher_limit(N as nat) && N + TAG_LENGTH
                <= old(self).capacity()) ==> r == Err::<
                &mut Self,
                SecretError,
            >(SecretError::BufferExhausted),
            r is Err ==> *final(self) == *old(self),
            r is Ok <==> key@.len() == KEY_LENGTH && within_cipher_limit(N as nat) && N
                + TAG_LENGTH <= old(self).capacity(),
            r matches Ok(m) ==> {
                &&& m.wf()
                &&& m@.0 == old(self)@.0
                &&& m@.1 == xchacha8_seal(key@, old(self)@.0, plaintext@)
                &&& m@.1.len() == N + TAG_LENGTH
                &&& m.sealed() == Some((key@, plaintext@))
                &&& m.capacity() == old(self).capacity()
                &&& *final(self) == *final(m)
            },
    {
        if key.len() != KEY_LENGTH {
            return Err(SecretError::InvalidKeyLength);
        }
        if N as u64 > MAX_MESSAGE_LENGTH {
            return Err(SecretError::BufferExhausted);
        }
        proof {
            plaintext.lemma_len();
        }
        let sealed = match seal(key, &self.xnonce, plaintext.expose_borrowed().as_slice()) {
            Some(c) => c,
            None => return Err(SecretError::BufferExhausted),
        };
        match self.ciphertext.set(sealed) {
            Ok(_) => {},
            Err(e) => return Err(e),
        }
        self.sealed = Ghost(Some((key@, plaintext@)));
        Ok(self)
    }

    /// Opens the stored ciphertext under `key` and the cell's nonce, with no
    /// associated data, into a fresh buffer. Fails with `InvalidKeyLength` on
    /// a key that is not 32 bytes long, with `BufferExhausted` where the
    /// stored ciphertext is longer than any the cipher can make, and with
    /// `AuthenticationFailure` where the tag does not verify; no plaintext is
    /// handed out then. A plaintext handed out is the stored ciphertext
    /// without its tag.
    pub fn decrypt(&mut self, key: &[u8]) -> (r: Result<ZeroizeBytes, SecretError>)
        requires
            old(self).wf(),
        ensures
            *final(self) == *old(self),
            key@.len() != KEY_LENGTH ==> r == Err::<ZeroizeBytes, SecretError>(
                SecretError::InvalidKeyLength,
            ),
            key@.len() == KEY_LENGTH && old(self)@.1.len() > MAX_MESSAGE_LENGTH + TAG_LENGTH ==> r
                == Err::<ZeroizeBytes, SecretError>(SecretError::BufferExhausted),
            key@.len() == KEY_LENGTH && old(self)@.1.len() <= MAX_MESSAGE_LENGTH + TAG_LENGTH
                && r is Err ==> r == Err::<ZeroizeBytes, SecretError>(
                SecretError::AuthenticationFailure,
            ),
            r matches Ok(p) ==> old(self)@.1 == xchacha8_seal(key@, old(self)@.0, p@)
                && within_cipher_limit(p@.len()) && old(self)@.1.len() == p@.len() + TAG_LENGTH,
            forall|p: Seq<u8>|
                #![trigger xchacha8_seal(key@, old(self)@.0, p)]
                key@.len() == KEY_LENGTH && within_cipher_limit(p.len()) && old(self)@.1.len()
                    <= MAX_MESSAGE_LENGTH + TAG_LENGTH && old(self)@.1 == xchacha8_seal(
                    key@,
                    old(self)@.0,
                    p,
                ) ==> (r matches Ok(b) && b@ == p),
            old(self).sealed() is Some && old(self).sealed().unwrap().0 == key@ ==> (r matches Ok(b)
                && b@ == old(self).sealed().unwrap().1),
    {
        if key.len() != KEY_LENGTH {
            return Err(SecretError::InvalidKeyLength);
        }
        if self.ciphertext.expose().len() as u64 > MAX_MESSAGE_LENGTH + TAG_LENGTH as u64 {
            return Err(SecretError::BufferExhausted);
        }
        match open(key, &self.xnonce, self.ciphertext.expose().as_slice()) {
            Some(plain) => {
                let mut out = ZeroizeBytes::new();
                out.set(plain);
                Ok(out)
            },
            None => Err(SecretError::AuthenticationFailure),
        }
    }
}

} // verus!

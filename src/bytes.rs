use vstd::prelude::*;
use crate::cipher::KEY_LENGTH;
use crate::error::SecretError;
use crate::random::fill_random;
use crate::wipe::{wipe_slice, wipe_vec, zeroed};

verus! {

/// Appends `src` to `dst` byte by byte, so that the bytes land in the room
/// that `dst` already reserved.
fn copy_into(dst: &mut Vec<u8>, src: &[u8])
    ensures
        final(dst)@ == old(dst)@ + src@,
{
    let mut i: usize = 0;
    while i < src.len()
        invariant
            i <= src@.len(),
            dst@ == old(dst)@ + src@.subrange(0, i as int),
        decreases src@.len() - i,
    {
        dst.push(src[i]);
        i = i + 1;
        assert(src@.subrange(0, i as int) =~= src@.subrange(0, i - 1) + seq![src@[i - 1]]);
    }
    assert(src@.subrange(0, src@.len() as int) =~= src@);
}

/// A heap buffer for a secret of about `N` bytes, with room reserved for `N`
/// bytes plus a requested overhead (an authentication tag, say). Its contents
/// are wiped when they are replaced, cleared or dropped.
pub struct ZeroizeBytesArray<const N: usize> {
    bytes: Vec<u8>,
    reserved: usize,
}

impl<const N: usize> View for ZeroizeBytesArray<N> {
    type V = Seq<u8>;

    closed spec fn view(&self) -> Seq<u8> {
        self.bytes@
    }
}

impl<const N: usize> ZeroizeBytesArray<N> {
    /// The number of bytes that were reserved: the most that `set` accepts.
    pub closed spec fn capacity(&self) -> nat {
        self.reserved as nat
    }

    /// An empty buffer with room for `N` bytes.
    pub fn new() -> (r: Self)
        ensures
            r@ == Seq::<u8>::empty(),
            r.capacity() == N,
    {
        ZeroizeBytesArray { bytes: Vec::with_capacity(N), reserved: N }
    }

    /// Replaces the contents with `value`. The old contents are wiped first,
    /// and `value` is wiped once copied. Fails, leaving the contents as they
    /// were, where `value` does not fit in the reserved room.
    pub fn set(&mut self, value: Vec<u8>) -> (r: Result<&mut Self, SecretError>)
        ensures
            r is Ok <==> value@.len() <= old(self).capacity(),
            r matches Ok(b) ==> b@ == value@ && b.capacity() == old(self).capacity()
                && final(self)@ == final(b)@ && final(self).capacity() == final(b).capacity(),
            r matches Err(e) ==> e == SecretError::BufferExhausted && *final(self) == *old(self),
    {
        let mut value = value;
        if value.len() > self.reserved {
            wipe_vec(&mut value);
            return Err(SecretError::BufferExhausted);
        }
        wipe_vec(&mut self.bytes);
        copy_into(&mut self.bytes, value.as_slice());
        wipe_vec(&mut value);
        Ok(self)
    }

    /// An empty buffer with room for `N + capacity` bytes.
    pub fn with_additional_capacity(capacity: usize) -> (r: Self)
        requires
            N + capacity <= usize::MAX,
        ensures
            r@ == Seq::<u8>::empty(),
            r.capacity() == N + capacity,
    {
        ZeroizeBytesArray { bytes: Vec::with_capacity(N + capacity), reserved: N + capacity }
    }

    /// A borrowed view of the contents.
    pub fn expose(&self) -> (r: &Vec<u8>)
        ensures
            r@ == self@,
    {
        &self.bytes
    }

    /// A second buffer with the same contents and the same reserved room.
    pub fn clone(&self) -> (r: ZeroizeBytesArray<N>)
        ensures
            r@ == self@,
            r.capacity() == self.capacity(),
    {
        let mut bytes = Vec::with_capacity(self.reserved);
        copy_into(&mut bytes, self.bytes.as_slice());
        ZeroizeBytesArray { bytes, reserved: self.reserved }
    }

    /// The contents seen as a cipher key: available only where they hold
    /// exactly the key length.
    pub fn chacha_key(&self) -> (r: Result<&[u8], SecretError>)
        ensures
            self@.len() == KEY_LENGTH <==> r is Ok,
            r matches Ok(k) ==> k@ == self@,
            r matches Err(e) ==> e == SecretError::InvalidKeyLength,
    {
        if self.bytes.len() == KEY_LENGTH {
            Ok(self.bytes.as_slice())
        } else {
            Err(SecretError::InvalidKeyLength)
        }
    }

    /// A buffer of `N` bytes drawn from a cryptographically secure generator.
    /// The staging buffer is wiped once its bytes have been copied.
    pub fn csprng() -> (r: Self)
        ensures
            r@.len() == N,
            r.capacity() == N,
    {
        let mut buffer = [0u8; N];
        fill_random(&mut buffer);
        Self::from_staged(&mut buffer)
    }

    /// A buffer holding the bytes staged in `buffer`, with room for exactly
    /// those; `buffer` is wiped once they have been copied.
    pub fn from_staged(buffer: &mut [u8; N]) -> (r: Self)
        ensures
            r@ == old(buffer)@,
            r.capacity() == N,
            final(buffer)@ == zeroed(old(buffer)@),
    {
        let mut bytes = Vec::with_capacity(N);
        copy_into(&mut bytes, buffer.as_slice());
        wipe_slice(buffer);
        ZeroizeBytesArray { bytes, reserved: N }
    }

    /// Wipes the contents and leaves the buffer empty, its reserved room kept.
    pub fn zeroize(&mut self)
        ensures
            final(self)@ == Seq::<u8>::empty(),
            final(self).capacity() == old(self).capacity(),
        opens_invariants none
        no_unwind
    {
        wipe_vec(&mut self.bytes);
    }
}

impl<const N: usize> Drop for ZeroizeBytesArray<N> {
    fn drop(&mut self)
        opens_invariants none
        no_unwind
    {
        self.zeroize();
    }
}

/// A heap buffer for a secret of any length, wiped when its contents are
/// replaced, cleared or dropped.
pub struct ZeroizeBytes {
    bytes: Vec<u8>,
    reserved: usize,
}

impl View for ZeroizeBytes {
    type V = Seq<u8>;

    closed spec fn view(&self) -> Seq<u8> {
        self.bytes@
    }
}

impl ZeroizeBytes {
    /// The room reserved for the contents; it grows to fit what `set` is given.
    pub closed spec fn capacity(&self) -> nat {
        self.reserved as nat
    }

    /// An empty buffer with no room reserved.
    pub fn new() -> (r: Self)
        ensures
            r@ == Seq::<u8>::empty(),
            r.capacity() == 0,
    {
        ZeroizeBytes { bytes: Vec::new(), reserved: 0 }
    }

    /// Replaces the contents with `value`. The old contents are wiped first,
    /// and `value` is wiped once copied. The reserved room grows to fit
    /// `value` where it was too small.
    pub fn set(&mut self, value: Vec<u8>) -> (r: &mut Self)
        ensures
            r@ == value@,
            r.capacity() == if value@.len() > old(self).capacity() {
                value@.len()
            } else {
                old(self).capacity()
            },
            final(self)@ == final(r)@,
            final(self).capacity() == final(r).capacity(),
    {
        let mut value = value;
        wipe_vec(&mut self.bytes);
        copy_into(&mut self.bytes, value.as_slice());
        if value.len() > self.reserved {
            self.reserved = value.len();
        }
        wipe_vec(&mut value);
        self
    }

    /// An empty buffer with room reserved for `capacity` bytes.
    pub fn new_with_capacity(capacity: usize) -> (r: Self)
        ensures
            r@ == Seq::<u8>::empty(),
            r.capacity() == capacity,
    {
        ZeroizeBytes { bytes: Vec::with_capacity(capacity), reserved: capacity }
    }

    /// A borrowed view of the contents.
    pub fn expose(&self) -> (r: &Vec<u8>)
        ensures
            r@ == self@,
    {
        &self.bytes
    }

    /// A second buffer with the same contents and the same reserved room.
    pub fn clone(&self) -> (r: ZeroizeBytes)
        ensures
            r@ == self@,
            r.capacity() == self.capacity(),
    {
        let mut bytes = Vec::with_capacity(self.reserved);
        copy_into(&mut bytes, self.bytes.as_slice());
        ZeroizeBytes { bytes, reserved: self.reserved }
    }

    /// The contents seen as a cipher key: available only where they hold
    /// exactly the key length.
    pub fn chacha_key(&self) -> (r: Result<&[u8], SecretError>)
        ensures
            self@.len() == KEY_LENGTH <==> r is Ok,
            r matches Ok(k) ==> k@ == self@,
            r matches Err(e) ==> e == SecretError::InvalidKeyLength,
    {
        if self.bytes.len() == KEY_LENGTH {
            Ok(self.bytes.as_slice())
        } else {
            Err(SecretError::InvalidKeyLength)
        }
    }

    /// A buffer of `BUFFER_SIZE` bytes drawn from a cryptographically secure
    /// generator. The staging buffer is wiped once its bytes have been copied.
    pub fn csprng<const BUFFER_SIZE: usize>() -> (r: Self)
        ensures
            r@.len() == BUFFER_SIZE,
            r.capacity() == BUFFER_SIZE,
    {
        let mut buffer = [0u8; BUFFER_SIZE];
        fill_random(&mut buffer);
        Self::from_staged(&mut buffer)
    }

    /// A buffer holding the bytes staged in `buffer`, with room for exactly
    /// those; `buffer` is wiped once they have been copied.
    pub fn from_staged<const BUFFER_SIZE: usize>(buffer: &mut [u8; BUFFER_SIZE]) -> (r: Self)
        ensures
            r@ == old(buffer)@,
            r.capacity() == BUFFER_SIZE,
            final(buffer)@ == zeroed(old(buffer)@),
    {
        let mut bytes = Vec::with_capacity(BUFFER_SIZE);
        copy_into(&mut bytes, buffer.as_slice());
        wipe_slice(buffer);
        ZeroizeBytes { bytes, reserved: BUFFER_SIZE }
    }

    /// Wipes the contents and leaves the buffer empty, its reserved room kept.
    pub fn zeroize(&mut self)
        ensures
            final(self)@ == Seq::<u8>::empty(),
            final(self).capacity() == old(self).capacity(),
        opens_invariants none
        no_unwind
    {
        wipe_vec(&mut self.bytes);
    }
}

impl Drop for ZeroizeBytes {
    fn drop(&mut self)
        opens_invariants none
        no_unwind
    {
        self.zeroize();
    }
}

} // verus!

use vstd::prelude::*;
use crate::cipher::KEY_LENGTH;
use crate::error::SecretError;
use crate::random::fill_random;
use crate::wipe::{zeroed, wipe_slice};

verus! {

/// A fixed-size secret of exactly `N` bytes, wiped when it is dropped.
pub struct ZeroizeArray<const N: usize>([u8; N]);

impl<const N: usize> View for ZeroizeArray<N> {
    type V = Seq<u8>;

    closed spec fn view(&self) -> Seq<u8> {
        self.0@
    }
}

impl<const N: usize> ZeroizeArray<N> {
    /// The contents always hold exactly `N` bytes.
    pub proof fn lemma_len(&self)
        ensures
            self@.len() == N,
    {
    }

    /// Takes ownership of `value` as a secret.
    pub fn new(value: [u8; N]) -> (r: Self)
        ensures
            r@ == value@,
    {
        ZeroizeArray(value)
    }

    /// A secret of `N` zero bytes.
    pub fn zeroed() -> (r: Self)
        ensures
            r@ == Seq::new(N as nat, |i: int| 0u8),
    {
        let r = ZeroizeArray([0u8; N]);
        assert(r@ =~= Seq::new(N as nat, |i: int| 0u8));
        r
    }

    /// Replaces the contents with `value`.
    pub fn fill_from_slice(&mut self, value: [u8; N]) -> (r: &mut Self)
        ensures
            r@ == value@,
            final(self)@ == final(r)@,
    {
        let mut i: usize = 0;
        while i < N
            invariant
                i <= N,
                self.0@.len() == N,
                forall|j: int| 0 <= j < i ==> self.0@[j] == value@[j],
            decreases N - i,
        {
            self.0[i] = value[i];
            i = i + 1;
        }
        assert(self.0@ =~= value@);
        self
    }

    /// A copy of the contents; the caller now holds a second copy of the secret.
    pub fn expose(&self) -> (r: [u8; N])
        ensures
            r@ == self@,
    {
        self.0
    }

    /// A borrowed view of the contents.
    pub fn expose_borrowed(&self) -> (r: &[u8; N])
        ensures
            r@ == self@,
    {
        &self.0
    }

    /// A second secret with the same contents.
    pub fn clone(&self) -> (r: ZeroizeArray<N>)
        ensures
            r@ == self@,
    {
        ZeroizeArray(self.0)
    }

    /// The contents seen as a cipher key: available only where `N` is the
    /// key length.
    pub fn chacha_key(&self) -> (r: Result<&[u8], SecretError>)
        ensures
            N == KEY_LENGTH <==> r is Ok,
            r matches Ok(k) ==> k@ == self@,
            r matches Err(e) ==> e == SecretError::InvalidKeyLength,
    {
        if N == KEY_LENGTH {
            Ok(self.0.as_slice())
        } else {
            Err(SecretError::InvalidKeyLength)
        }
    }

    /// Moves the secret on to a new owner.
    pub fn own(self) -> (r: Self)
        ensures
            r@ == self@,
    {
        self
    }

    /// Overwrites byte `index` with `value`.
    pub fn insert(&mut self, index: usize, value: u8) -> (r: &mut Self)
        requires
            index < N,
        ensures
            r@ == old(self)@.update(index as int, value),
            final(self)@ == final(r)@,
    {
        self.0[index] = value;
        self
    }

    /// A secret of `N` bytes drawn from a cryptographically secure generator.
    /// The staging buffer is wiped once its bytes have been copied.
    pub fn csprng() -> (r: Self)
        ensures
            r@.len() == N,
    {
        let mut buffer = [0u8; N];
        fill_random(&mut buffer);
        Self::from_staged(&mut buffer)
    }

    /// A secret holding the bytes staged in `buffer`, which is wiped once
    /// they have been copied, so that no second copy stays behind.
    pub fn from_staged(buffer: &mut [u8; N]) -> (r: Self)
        ensures
            r@ == old(buffer)@,
            final(buffer)@ == zeroed(old(buffer)@),
    {
        let secret = ZeroizeArray(*buffer);
        wipe_slice(buffer);
        secret
    }

    /// Overwrites every byte with zero.
    pub fn zeroize(&mut self)
        ensures
            final(self)@ == zeroed(old(self)@),
        opens_invariants none
        no_unwind
    {
        wipe_slice(&mut self.0);
    }
}

impl<const N: usize> Drop for ZeroizeArray<N> {
    fn drop(&mut self)
        opens_invariants none
        no_unwind
    {
        self.zeroize();
    }
}

} // verus!

use vstd::prelude::*;
use zeroize::Zeroize;

verus! {

/// `s` with every byte replaced by zero.
pub open spec fn zeroed(s: Seq<u8>) -> Seq<u8> {
    Seq::new(s.len(), |i: int| 0u8)
}

/// Relies on `zeroize`'s `Zeroize` impl for `[u8]`: every byte is set to zero
/// with volatile writes that the compiler may not elide.
#[verifier::external_body]
pub(crate) fn wipe_slice(s: &mut [u8])
    ensures
        final(s)@ == zeroed(old(s)@),
    opens_invariants none
    no_unwind
{
    s.zeroize();
}

/// Relies on `zeroize`'s `Zeroize` impl for `Vec<u8>`: the elements and the
/// spare capacity are overwritten with zeros, then the vector is cleared.
#[verifier::external_body]
pub(crate) fn wipe_vec(v: &mut Vec<u8>)
    ensures
        final(v)@ == Seq::<u8>::empty(),
    opens_invariants none
    no_unwind
{
    v.zeroize();
}

/// Zeroing is idempotent: clearing a cleared buffer leaves it as it was.
pub proof fn lemma_zeroed_idempotent(s: Seq<u8>)
    ensures
        zeroed(zeroed(s)) == zeroed(s),
{
    assert(zeroed(zeroed(s)) =~= zeroed(s));
}

} // verus!

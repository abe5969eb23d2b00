use vstd::prelude::*;
use nanorand::{BufferedRng, ChaCha8, Rng};

verus! {

/// Relies on `nanorand`'s `ChaCha8::new` and on `BufferedRng::fill`, which
/// overwrites every byte of the target. Nothing is promised of the bytes
/// drawn: `ChaCha8::new` seeds itself from the operating system with a
/// non-blocking `getrandom` and ignores a failed read, which leaves its seed
/// all zero.
#[verifier::external_body]
pub(crate) fn fill_random(buf: &mut [u8])
    ensures
        final(buf)@.len() == old(buf)@.len(),
{
    let mut rng = BufferedRng::new(ChaCha8::new());
    rng.fill(buf);
}

} // verus!

use ring::rand::{SecureRandom, SystemRandom};
use vstd::prelude::*;

verus! {

/// Calls `ring::rand::SecureRandom::fill` on a `SystemRandom`. Trusted: the
/// buffer keeps its length, and an empty buffer is always filled (`fill` hands
/// it to `getrandom`, which documents success on empty input). Nothing else is
/// claimed of the bytes or of when the source fails; `false` is a failure.
#[verifier::external_body]
pub(crate) fn fill_random(dest: &mut Vec<u8>) -> (filled: bool)
    ensures
        final(dest)@.len() == old(dest)@.len(),
        old(dest)@.len() == 0 ==> filled,
{
    SystemRandom::new().fill(dest).is_ok()
}

/// Draws `n` bytes from the system's randomness source; `None` where it fails.
pub fn fresh_bytes(n: usize) -> (bytes: Option<Vec<u8>>)
    ensures
        bytes matches Some(b) ==> b@.len() == n,
        n == 0 ==> bytes is Some,
{
    let mut buffer: Vec<u8> = vec![0u8; n];
    let filled = fill_random(&mut buffer);
    drawn(buffer, filled)
}

/// What a draw gives once the randomness source has answered: the buffer
/// where the source filled it, nothing where the source failed.
pub fn drawn(buffer: Vec<u8>, filled: bool) -> (bytes: Option<Vec<u8>>)
    ensures
        bytes == if filled {
            Some(buffer)
        } else {
            None
        },
{
    if filled {
        Some(buffer)
    } else {
        None
    }
}

} // verus!

use vstd::prelude::*;

use rand::rngs::SysRng;
use rand::TryRng;

verus! {

/// Relies on `rand::rngs::SysRng::try_fill_bytes`, the operating system's
/// cryptographically secure random source: on `Ok` the whole buffer has been
/// overwritten with random bytes, on `Err` the source was unusable. Either
/// way the buffer keeps its length; nothing can be promised about the bytes
/// themselves, as two calls on equal buffers return different contents.
#[verifier::external_body]
pub(crate) fn fill_random(buf: &mut Vec<u8>) -> (r: Result<(), ()>)
    ensures
        final(buf)@.len() == old(buf)@.len(),
{
    match SysRng.try_fill_bytes(buf.as_mut_slice()) {
        Ok(()) => Ok(()),
        Err(_) => Err(()),
    }
}

} // verus!

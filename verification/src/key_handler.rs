use vstd::prelude::*;

use crate::errors::VaultError;
use crate::random::fill_random;

verus! {

/// Byte length of a raw symmetric key, and of an initialization vector.
pub const KEY_LEN: usize = 16;

/// Raw symmetric key material. A value of this type always holds exactly
/// `KEY_LEN` bytes: it can only be built by `read_key` or `generate_key`.
pub struct Key {
    bytes: Vec<u8>,
}

impl View for Key {
    type V = Seq<u8>;

    closed spec fn view(&self) -> Seq<u8> {
        self.bytes@
    }
}

impl Key {
    /// A key is well formed when it holds exactly `KEY_LEN` bytes.
    pub open spec fn wf(&self) -> bool {
        self@.len() == KEY_LEN
    }

    /// The raw bytes, as they stand in a key file.
    pub fn bytes(&self) -> (r: &Vec<u8>)
        ensures
            r@ == self@,
    {
        &self.bytes
    }
}

/// Validate key material read from a key file: it is accepted exactly when
/// it is `KEY_LEN` bytes long, and is taken over unchanged.
pub fn read_key(data: Vec<u8>) -> (r: Result<Key, VaultError>)
    ensures
        r is Ok <==> data@.len() == KEY_LEN,
        r is Ok ==> r->Ok_0.wf() && r->Ok_0@ == data@,
        r is Err ==> (r->Err_0 matches VaultError::InvalidKeyLength(l) && l == data@.len()),
{
    let len = data.len();
    if len == KEY_LEN {
        Ok(Key { bytes: data })
    } else {
        Err(VaultError::InvalidKeyLength(len))
    }
}

/// Draw fresh key material from the operating system's random source.
/// The only failure is an unusable random source.
pub fn generate_key() -> (r: Result<Key, VaultError>)
    ensures
        r is Ok ==> r->Ok_0.wf(),
        r is Err ==> r->Err_0 is RandomSourceUnavailable,
{
    let mut bytes: Vec<u8> = vec![0u8; KEY_LEN];
    match fill_random(&mut bytes) {
        Ok(()) => Ok(Key { bytes }),
        Err(()) => Err(VaultError::RandomSourceUnavailable),
    }
}

} // verus!

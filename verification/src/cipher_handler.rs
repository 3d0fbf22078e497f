use vstd::prelude::*;

use crate::errors::VaultError;
use crate::key_handler::{Key, KEY_LEN};
use crate::random::fill_random;
use crypto::aes;
use crypto::symmetriccipher::SynchronousStreamCipher;

verus! {

/// Byte length of the initialization vector that prefixes a ciphertext file.
pub const IV_LEN: usize = 16;

/// One byte of the AES counter-mode keystream. The keystream is a function
/// of the key, the initialization vector and the byte position alone; its
/// value is what the cipher computes and is not stated here.
pub uninterp spec fn ctr_keystream_byte(key: Seq<u8>, iv: Seq<u8>, i: int) -> u8;

/// The counter-mode transform of a byte sequence: each byte XORed with the
/// keystream byte at its position. Applying it twice with the same key and
/// initialization vector gives the sequence back.
pub open spec fn ctr_transform(key: Seq<u8>, iv: Seq<u8>, data: Seq<u8>) -> Seq<u8> {
    Seq::new(data.len(), |i: int| data[i] ^ ctr_keystream_byte(key, iv, i))
}

/// Relies on `crypto::aes::ctr` and `SynchronousStreamCipher::process`:
/// AES in counter mode produces a keystream from the key and the
/// initialization vector alone and XORs the input with it byte by byte,
/// so the output has the input's length. The cipher is configured for a
/// 128-bit key, matching `KEY_LEN`; `process` is called once, on buffers
/// of equal length, as it demands.
#[verifier::external_body]
fn aes_ctr_process(key: &Vec<u8>, iv: &Vec<u8>, data: &Vec<u8>) -> (r: Vec<u8>)
    requires
        key@.len() == KEY_LEN,
        iv@.len() == IV_LEN,
    ensures
        r@.len() == data@.len(),
        forall|i: int|
            0 <= i < data@.len() ==> r@[i] == (data@[i] ^ ctr_keystream_byte(key@, iv@, i)),
{
    let mut cipher = aes::ctr(aes::KeySize::KeySize128, key.as_slice(), iv.as_slice());
    let mut out: Vec<u8> = vec![0u8; data.len()];
    cipher.process(data.as_slice(), &mut out);
    out
}

/// Assemble a ciphertext file body for a given initialization vector: the
/// vector itself, followed by the plaintext XORed with the keystream. This
/// is total; `encrypt` is the variant that draws the vector from the random
/// source.
pub fn encrypt_with_iv(key: &Key, iv: &Vec<u8>, plaintext: &Vec<u8>) -> (r: Vec<u8>)
    requires
        key.wf(),
        iv@.len() == IV_LEN,
        plaintext@.len() + IV_LEN <= usize::MAX,
    ensures
        r@.len() == IV_LEN + plaintext@.len(),
        r@.take(IV_LEN as int) == iv@,
        r@.skip(IV_LEN as int) == ctr_transform(key@, iv@, plaintext@),
{
    let ciphertext = aes_ctr_process(key.bytes(), iv, plaintext);
    let mut out: Vec<u8> = Vec::new();
    out.extend_from_slice(iv.as_slice());
    out.extend_from_slice(ciphertext.as_slice());
    proof {
        assert(ciphertext@ =~= ctr_transform(key@, iv@, plaintext@));
        assert(out@.take(IV_LEN as int) =~= iv@);
        assert(out@.skip(IV_LEN as int) =~= ciphertext@);
    }
    out
}

/// Encrypt a whole plaintext file body: draw a fresh initialization vector
/// from the random source and return the vector followed by the ciphertext.
/// The only failure is an unusable random source.
pub fn encrypt(key: &Key, plaintext: &Vec<u8>) -> (r: Result<Vec<u8>, VaultError>)
    requires
        key.wf(),
        plaintext@.len() + IV_LEN <= usize::MAX,
    ensures
        r matches Ok(out) ==> {
            &&& out@.len() == IV_LEN + plaintext@.len()
            &&& out@.skip(IV_LEN as int) == ctr_transform(
                key@,
                out@.take(IV_LEN as int),
                plaintext@,
            )
        },
        r is Err ==> r->Err_0 is RandomSourceUnavailable,
{
    let mut iv: Vec<u8> = vec![0u8; IV_LEN];
    match fill_random(&mut iv) {
        Ok(()) => Ok(encrypt_with_iv(key, &iv, plaintext)),
        Err(()) => Err(VaultError::RandomSourceUnavailable),
    }
}

/// Decrypt a whole ciphertext file body: the first `IV_LEN` bytes are the
/// initialization vector, the rest is XORed with the keystream it selects.
/// A body shorter than one vector is rejected, with its length reported.
pub fn decrypt(key: &Key, filedata: &Vec<u8>) -> (r: Result<Vec<u8>, VaultError>)
    requires
        key.wf(),
    ensures
        filedata@.len() >= IV_LEN ==> {
            &&& r is Ok
            &&& r->Ok_0@ == ctr_transform(
                key@,
                filedata@.take(IV_LEN as int),
                filedata@.skip(IV_LEN as int),
            )
            &&& r->Ok_0@.len() == filedata@.len() - IV_LEN
        },
        filedata@.len() < IV_LEN ==> (r->Err_0 matches VaultError::TruncatedHeader(l) && l
            == filedata@.len() && r is Err),
{
    if filedata.len() < IV_LEN {
        return Err(VaultError::TruncatedHeader(filedata.len()));
    }
    let mut iv: Vec<u8> = Vec::new();
    let mut body: Vec<u8> = Vec::new();
    let mut i: usize = 0;
    while i < IV_LEN
        invariant
            i <= IV_LEN,
            IV_LEN <= filedata@.len(),
            iv@ =~= filedata@.take(i as int),
        decreases IV_LEN - i,
    {
        iv.push(filedata[i]);
        i = i + 1;
    }
    while i < filedata.len()
        invariant
            IV_LEN <= i <= filedata@.len(),
            iv@ =~= filedata@.take(IV_LEN as int),
            body@ =~= filedata@.subrange(IV_LEN as int, i as int),
        decreases filedata@.len() - i,
    {
        body.push(filedata[i]);
        i = i + 1;
    }
    let plain = aes_ctr_process(key.bytes(), &iv, &body);
    proof {
        assert(body@ =~= filedata@.skip(IV_LEN as int));
        assert(plain@ =~= ctr_transform(key@, filedata@.take(IV_LEN as int), body@));
    }
    Ok(plain)
}

/// Law: the counter-mode transform is self-inverse. Transforming a byte
/// sequence twice under the same key and initialization vector gives the
/// sequence back, whatever the keystream's bytes are.
pub proof fn lemma_ctr_transform_self_inverse(key: Seq<u8>, iv: Seq<u8>, data: Seq<u8>)
    ensures
        ctr_transform(key, iv, ctr_transform(key, iv, data)) == data,
{
    let once = ctr_transform(key, iv, data);
    let twice = ctr_transform(key, iv, once);
    assert forall|i: int| 0 <= i < data.len() implies twice[i] == data[i] by {
        let d = data[i];
        let k = ctr_keystream_byte(key, iv, i);
        assert(((d ^ k) ^ k) == d) by (bit_vector);
    }
    assert(twice =~= data);
}

/// Law: round trip. A file body assembled as `encrypt`'s contract states —
/// an initialization vector followed by the transformed plaintext — decrypts,
/// as `decrypt`'s contract states, to exactly that plaintext under the same
/// key.
pub proof fn lemma_round_trip(key: Seq<u8>, file: Seq<u8>, plaintext: Seq<u8>)
    requires
        file.len() == IV_LEN + plaintext.len(),
        file.skip(IV_LEN as int) == ctr_transform(key, file.take(IV_LEN as int), plaintext),
    ensures
        ctr_transform(key, file.take(IV_LEN as int), file.skip(IV_LEN as int)) == plaintext,
{
    lemma_ctr_transform_self_inverse(key, file.take(IV_LEN as int), plaintext);
}

} // verus!

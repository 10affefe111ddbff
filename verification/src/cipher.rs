//! The cipher engine: AES-256 in counter mode, keyed by the master-key
//! material, with a fresh nonce for every encryption.
//!
//! A ciphertext is the 16-byte nonce followed by the plaintext combined with
//! the keystream that key and nonce determine. The engine keeps no state.

use vstd::prelude::*;
use aes::cipher::{KeyIvInit, StreamCipher};
use aes::cipher::generic_array::GenericArray;
use rand::Rng;
use crate::errors::ErrorExecution;

verus! {

/// The length of the key material, in bytes.
pub const KEY_LEN: usize = 32;

/// The length of the nonce that starts every ciphertext, in bytes.
pub const NONCE_LEN: usize = 16;

/// The most bytes that one key and nonce can cover: a 32-bit block counter
/// over 16-byte blocks, the last counter value unused.
pub const MAX_STREAM_LEN: u64 = 68_719_476_720;

/// The first `len` bytes of the AES-256 counter-mode keystream for `key` and
/// `nonce`, the counter being the last four bytes of the nonce block, big
/// endian.
pub uninterp spec fn aes256_ctr_keystream(key: Seq<u8>, nonce: Seq<u8>, len: nat) -> Seq<u8>;

/// `data` combined with `stream`, byte by byte, by exclusive or.
pub open spec fn xor_bytes(data: Seq<u8>, stream: Seq<u8>) -> Seq<u8> {
    Seq::new(data.len(), |i: int| data[i] ^ stream[i])
}

/// The ciphertext of `plaintext` under `key` for a given `nonce`.
pub open spec fn sealed(plaintext: Seq<u8>, key: Seq<u8>, nonce: Seq<u8>) -> Seq<u8> {
    nonce + xor_bytes(plaintext, aes256_ctr_keystream(key, nonce, plaintext.len()))
}

/// The plaintext that `ciphertext` holds under `key`.
pub open spec fn opened(ciphertext: Seq<u8>, key: Seq<u8>) -> Seq<u8> {
    let nonce = ciphertext.subrange(0, NONCE_LEN as int);
    let body = ciphertext.subrange(NONCE_LEN as int, ciphertext.len() as int);
    xor_bytes(body, aes256_ctr_keystream(key, nonce, body.len()))
}

/// Whether `key` has the length of an AES-256 key.
pub open spec fn key_fits(key: Seq<u8>) -> bool {
    key.len() == KEY_LEN
}

/// Whether a plaintext can be encrypted: one keystream must cover it.
pub open spec fn plaintext_fits(plaintext: Seq<u8>) -> bool {
    plaintext.len() <= MAX_STREAM_LEN
}

/// Whether a ciphertext is well formed: a nonce, and a body that one
/// keystream covers.
pub open spec fn ciphertext_fits(ciphertext: Seq<u8>) -> bool {
    NONCE_LEN <= ciphertext.len() <= MAX_STREAM_LEN + NONCE_LEN
}

/// Builds the cipher with `Ctr32BE::<Aes256>::new` and calls its
/// `apply_keystream`, which combines the buffer in place with the keystream
/// by exclusive or. Both panic outside the lengths required here.
#[verifier::external_body]
fn apply_keystream(key: &[u8], nonce: &[u8], data: &mut Vec<u8>)
    requires
        key@.len() == KEY_LEN,
        nonce@.len() == NONCE_LEN,
        old(data)@.len() <= MAX_STREAM_LEN,
    ensures
        final(data)@ == xor_bytes(
            old(data)@,
            aes256_ctr_keystream(key@, nonce@, old(data)@.len()),
        ),
{
    let mut cipher = ctr::Ctr32BE::<aes::Aes256>::new(
        GenericArray::from_slice(key),
        GenericArray::from_slice(nonce),
    );
    cipher.apply_keystream(data);
}

/// Draws one byte from `rand::thread_rng`. Nothing is known of it.
#[verifier::external_body]
fn random_byte() -> (byte: u8) {
    rand::thread_rng().gen()
}

/// A nonce drawn afresh: sixteen bytes, whatever they are.
pub fn fresh_nonce() -> (nonce: Vec<u8>)
    ensures
        nonce@.len() == NONCE_LEN,
{
    let mut nonce: Vec<u8> = Vec::new();
    while nonce.len() < NONCE_LEN
        invariant
            nonce@.len() <= NONCE_LEN,
        decreases NONCE_LEN - nonce@.len(),
    {
        nonce.push(random_byte());
    }
    nonce
}

/// Stateless encryption and decryption of entry secrets.
pub struct CipherEngine {}

impl CipherEngine {
    /// Encrypts `plaintext` under `key_material` with the given `nonce`.
    ///
    /// Key material of the wrong length is a decode failure and is reported
    /// first; a nonce of the wrong length or a plaintext too long for one
    /// keystream is a cipher failure.
    pub fn encrypt_with_nonce(plaintext: &[u8], key_material: &[u8], nonce: &[u8]) -> (result:
        Result<Vec<u8>, ErrorExecution>)
        ensures
            match result {
                Ok(ciphertext) => {
                    &&& key_fits(key_material@)
                    &&& nonce@.len() == NONCE_LEN
                    &&& plaintext_fits(plaintext@)
                    &&& ciphertext@ == sealed(plaintext@, key_material@, nonce@)
                },
                Err(e) => if !key_fits(key_material@) {
                    e is DecodeFailure
                } else {
                    &&& e is CipherFailure
                    &&& nonce@.len() != NONCE_LEN || !plaintext_fits(plaintext@)
                },
            },
    {
        if key_material.len() != KEY_LEN {
            return Err(ErrorExecution::DecodeFailure);
        }
        if nonce.len() != NONCE_LEN || plaintext.len() as u64 > MAX_STREAM_LEN {
            return Err(ErrorExecution::CipherFailure);
        }
        let mut body = vstd::slice::slice_to_vec(plaintext);
        apply_keystream(key_material, nonce, &mut body);
        let mut ciphertext = vstd::slice::slice_to_vec(nonce);
        ciphertext.append(&mut body);
        Ok(ciphertext)
    }

    /// Encrypts `plaintext` under `key_material` with a nonce drawn afresh,
    /// so that two encryptions never share a keystream by design.
    ///
    /// Succeeds exactly when the key has 32 bytes and the plaintext fits one
    /// keystream. Whatever nonce was drawn, it starts the ciphertext, and
    /// decrypting the ciphertext under the same key gives the plaintext back.
    pub fn encrypt(plaintext: &[u8], key_material: &[u8]) -> (result: Result<
        Vec<u8>,
        ErrorExecution,
    >)
        ensures
            match result {
                Ok(ciphertext) => {
                    &&& key_fits(key_material@)
                    &&& plaintext_fits(plaintext@)
                    &&& ciphertext@.len() == NONCE_LEN + plaintext@.len()
                    &&& ciphertext@ == sealed(
                        plaintext@,
                        key_material@,
                        ciphertext@.subrange(0, NONCE_LEN as int),
                    )
                    &&& ciphertext_fits(ciphertext@)
                    &&& opened(ciphertext@, key_material@) == plaintext@
                },
                Err(e) => if !key_fits(key_material@) {
                    e is DecodeFailure
                } else {
                    e is CipherFailure && !plaintext_fits(plaintext@)
                },
            },
    {
        let nonce = fresh_nonce();
        let result = Self::encrypt_with_nonce(plaintext, key_material, nonce.as_slice());
        proof {
            if result is Ok {
                lemma_decrypt_inverts_encrypt(plaintext@, key_material@, nonce@);
                assert(result->Ok_0@.subrange(0, NONCE_LEN as int) =~= nonce@);
            }
        }
        result
    }

    /// Decrypts a ciphertext made by [`CipherEngine::encrypt`] under the
    /// same key.
    ///
    /// Key material of the wrong length is a decode failure and is reported
    /// first; a ciphertext too short to hold a nonce, or too long for one
    /// keystream, is a cipher failure.
    pub fn decrypt(ciphertext: &[u8], key_material: &[u8]) -> (result: Result<
        Vec<u8>,
        ErrorExecution,
    >)
        ensures
            match result {
                Ok(plaintext) => {
                    &&& key_fits(key_material@)
                    &&& ciphertext_fits(ciphertext@)
                    &&& plaintext@ == opened(ciphertext@, key_material@)
                },
                Err(e) => if !key_fits(key_material@) {
                    e is DecodeFailure
                } else {
                    e is CipherFailure && !ciphertext_fits(ciphertext@)
                },
            },
    {
        if key_material.len() != KEY_LEN {
            return Err(ErrorExecution::DecodeFailure);
        }
        let total: usize = ciphertext.len();
        if total < NONCE_LEN || (total - NONCE_LEN) as u64 > MAX_STREAM_LEN {
            return Err(ErrorExecution::CipherFailure);
        }
        let nonce = vstd::slice::slice_subrange(ciphertext, 0, NONCE_LEN);
        let mut body = vstd::slice::slice_to_vec(
            vstd::slice::slice_subrange(ciphertext, NONCE_LEN, total),
        );
        apply_keystream(key_material, nonce, &mut body);
        Ok(body)
    }
}

/// Combining twice with the same stream gives the data back.
pub proof fn lemma_xor_twice(data: Seq<u8>, stream: Seq<u8>)
    ensures
        xor_bytes(xor_bytes(data, stream), stream) == data,
{
    assert forall|i: int| 0 <= i < data.len() implies xor_bytes(xor_bytes(data, stream), stream)[i]
        == data[i] by {
        let a = data[i];
        let b = stream[i];
        assert((a ^ b) ^ b == a) by (bit_vector);
    }
    assert(xor_bytes(xor_bytes(data, stream), stream) =~= data);
}

/// Round trip: for every plaintext that fits, every key and every nonce,
/// decrypting what encryption produced under the same key gives the
/// plaintext back, and the ciphertext is one that decryption accepts.
pub proof fn lemma_decrypt_inverts_encrypt(plaintext: Seq<u8>, key: Seq<u8>, nonce: Seq<u8>)
    requires
        nonce.len() == NONCE_LEN,
        plaintext_fits(plaintext),
    ensures
        ciphertext_fits(sealed(plaintext, key, nonce)),
        opened(sealed(plaintext, key, nonce), key) == plaintext,
{
    let stream = aes256_ctr_keystream(key, nonce, plaintext.len());
    let ciphertext = sealed(plaintext, key, nonce);
    assert(ciphertext.subrange(0, NONCE_LEN as int) =~= nonce);
    assert(ciphertext.subrange(NONCE_LEN as int, ciphertext.len() as int) =~= xor_bytes(
        plaintext,
        stream,
    ));
    lemma_xor_twice(plaintext, stream);
}

} // verus!

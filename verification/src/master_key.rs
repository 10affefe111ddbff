//! The master key: provisioning it from a password, and handing out the key
//! material that the cipher engine is keyed with.
//!
//! The key hash is the SHA-256 digest of the salt followed by the password,
//! kept as hexadecimal text. The salt is drawn once, when the vault is first
//! initialized, and kept for as long as the vault exists.
//!
//! The bytes of the key hash are the key material as they stand: the hash
//! that verifies the password also keys the cipher, and no key stretching
//! is applied. Whoever reads the configuration file holds the key.

use vstd::prelude::*;
use vstd::utf8::encode_utf8;
use crate::cipher::key_fits;
use crate::config::{ConfigView, KoflGlobalConfig};
use crate::digest::{sha256, sha256_digest};
use crate::errors::ErrorExecution;
use crate::hexcode::{hex_bytes, hex_text, is_hex_text, lemma_decode_inverts_encode};
use crate::text::{bytes_of, is_alphanumeric_text, random_text};

verus! {

/// The number of characters in a salt.
pub const SALT_LEN: usize = 16;

/// Whether `text` could have been drawn as a salt.
pub open spec fn is_salt(text: Seq<char>) -> bool {
    &&& text.len() == SALT_LEN
    &&& is_alphanumeric_text(text)
}

/// The key hash that a salt and a password give.
pub open spec fn key_hash_text(salt: Seq<char>, password: Seq<char>) -> Seq<char> {
    hex_text(sha256_digest(encode_utf8(salt) + encode_utf8(password)))
}

/// The key material behind a key hash: its bytes, where the hash is
/// hexadecimal text.
pub open spec fn key_material_of(hashed_pwd: Seq<char>) -> Option<Seq<u8>> {
    if is_hex_text(hashed_pwd) {
        Some(hex_bytes(hashed_pwd))
    } else {
        None
    }
}

/// The configuration after a master key has been provisioned from
/// `password`: the salt it already had, or `fresh_salt` if it had none; the
/// key hash of that salt and the password; the flag raised; all else as it
/// was.
pub open spec fn provisioned(before: ConfigView, password: Seq<char>, fresh_salt: Seq<char>)
    -> ConfigView {
    let salt = if before.salt.len() > 0 {
        before.salt
    } else {
        fresh_salt
    };
    ConfigView {
        salt,
        hashed_pwd: key_hash_text(salt, password),
        master_key_provided: true,
        ..before
    }
}

/// Derives the key hash from a salt and a password.
pub fn derive_key_hash(salt: &str, password: &str) -> (hash: String)
    ensures
        hash@ == key_hash_text(salt@, password@),
        key_material_of(hash@) matches Some(key) && key_fits(key),
{
    let mut material = bytes_of(salt);
    let mut tail = bytes_of(password);
    material.append(&mut tail);
    let digest = sha256(material.as_slice());
    proof {
        lemma_decode_inverts_encode(digest@);
    }
    crate::hexcode::encode(digest.as_slice())
}

/// Provisions the master key with a salt supplied by the caller, which is
/// used only if the vault has none yet.
///
/// Fails with [`ErrorExecution::PasswordMismatch`], leaving the
/// configuration as it was, exactly when the password and its confirmation
/// differ in any character.
pub fn initialize_with_salt(
    config: &mut KoflGlobalConfig,
    password: &String,
    confirm_password: &String,
    fresh_salt: String,
) -> (result: Result<(), ErrorExecution>)
    ensures
        match result {
            Ok(_) => {
                &&& password@ == confirm_password@
                &&& final(config)@ == provisioned(old(config)@, password@, fresh_salt@)
                &&& key_material_of(final(config)@.hashed_pwd) matches Some(key) && key_fits(key)
            },
            Err(e) => {
                &&& e is PasswordMismatch
                &&& password@ != confirm_password@
                &&& final(config)@ == old(config)@
            },
        },
{
    if !(*password == *confirm_password) {
        return Err(ErrorExecution::PasswordMismatch);
    }
    if config.get_salt().as_str().unicode_len() == 0 {
        config.set_salt(fresh_salt);
    }
    let hash = derive_key_hash(config.get_salt().as_str(), password.as_str());
    config.set_master_key_hash(hash);
    config.set_master_key_provided(true);
    Ok(())
}

/// Provisions the master key from a password typed twice.
///
/// Fails with [`ErrorExecution::PasswordMismatch`], leaving the
/// configuration as it was, exactly when the two differ. Otherwise the
/// vault keeps the salt it has, or gets a freshly drawn one of sixteen
/// letters and digits if it has none; the key hash is derived from salt and
/// password, and the master key counts as provided. The key material of the
/// new hash is always fit to key the cipher.
pub fn initialize(config: &mut KoflGlobalConfig, password: &String, confirm_password: &String) -> (result:
    Result<(), ErrorExecution>)
    ensures
        match result {
            Ok(_) => {
                &&& password@ == confirm_password@
                &&& final(config)@ == provisioned(old(config)@, password@, final(config)@.salt)
                &&& old(config)@.salt.len() == 0 ==> is_salt(final(config)@.salt)
                &&& final(config)@.master_key_provided
                &&& key_material_of(final(config)@.hashed_pwd) matches Some(key) && key_fits(key)
            },
            Err(e) => {
                &&& e is PasswordMismatch
                &&& password@ != confirm_password@
                &&& final(config)@ == old(config)@
            },
        },
{
    let fresh_salt = random_text(SALT_LEN);
    let ghost salt = if old(config)@.salt.len() > 0 {
        old(config)@.salt
    } else {
        fresh_salt@
    };
    let result = initialize_with_salt(config, password, confirm_password, fresh_salt);
    proof {
        if result is Ok {
            assert(config@.salt == salt);
        }
    }
    result
}

/// The key material for the cipher: the bytes that the key hash stands for.
/// Fails with [`ErrorExecution::DecodeFailure`] exactly when the hash is not
/// hexadecimal text.
pub fn get_key_material(config: &KoflGlobalConfig) -> (result: Result<Vec<u8>, ErrorExecution>)
    ensures
        match result {
            Ok(key) => key_material_of(config@.hashed_pwd) == Some(key@),
            Err(e) => e is DecodeFailure && key_material_of(config@.hashed_pwd) is None,
        },
{
    let hash = config.get_master_key_hash();
    crate::hexcode::decode(hash.as_str())
}

/// Whether a master key has been provisioned.
pub fn is_provided(config: &KoflGlobalConfig) -> (provided: bool)
    ensures
        provided == config@.master_key_provided,
{
    config.is_master_key_provided()
}

} // verus!

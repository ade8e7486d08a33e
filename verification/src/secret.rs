//! The password of the sending account, kept encrypted under a key that
//! belongs to the machine.

use vstd::prelude::*;
use magic_crypt::MagicCryptTrait;
use crate::text::text_of;

verus! {

/// The base64 text that `text` is encrypted to under `key`.
pub uninterp spec fn encrypted(key: Seq<char>, text: Seq<char>) -> Seq<char>;

/// The text that `base64` is decrypted to under `key`, or `None` where
/// `base64` is no encryption under `key` of any text.
pub uninterp spec fn decrypted(key: Seq<char>, base64: Seq<char>) -> Option<Seq<char>>;

#[verifier::external_type_specification]
#[verifier::external_body]
pub struct ExMagicCryptError(magic_crypt::MagicCryptError);

/// Makes a `magic_crypt::MagicCrypt256` from `key`, without an
/// initialisation vector, and calls its `encrypt_str_to_base64` on `text`.
/// The result depends on the key and the text alone; the contract names
/// it `encrypted`, and claims that decrypting it under the same key gives
/// the text back, which is what the cipher is for.
#[verifier::external_body]
fn encrypt_with(key: &str, text: &str) -> (r: String)
    ensures
        r@ == encrypted(key@, text@),
        decrypted(key@, r@) == Some(text@),
{
    magic_crypt::MagicCrypt256::new(key, None::<String>).encrypt_str_to_base64(text)
}

/// Makes a `magic_crypt::MagicCrypt256` from `key`, without an
/// initialisation vector, and calls its `decrypt_base64_to_string` on
/// `base64`. The result depends on the key and the text alone; the
/// contract names it `decrypted`.
#[verifier::external_body]
fn decrypt_with(key: &str, base64: &str) -> (r: Result<String, magic_crypt::MagicCryptError>)
    ensures
        match r {
            Ok(text) => decrypted(key@, base64@) == Some(text@),
            Err(_) => decrypted(key@, base64@) is None,
        },
{
    magic_crypt::MagicCrypt256::new(key, None::<String>).decrypt_base64_to_string(base64)
}

/// A stored password could not be decrypted.
#[derive(Clone, Copy, Debug, PartialEq, Eq, Structural)]
pub struct DecryptionError {}

impl DecryptionError {
    /// The text that reports the error.
    pub fn message(&self) -> (r: String)
        ensures
            r@ == "Password decryption failed"@,
    {
        "Password decryption failed".to_string()
    }
}

/// The key that this machine encrypts under: its hardware address where it
/// has one, else the fallback.
pub open spec fn key_of(mac_address: Option<Seq<char>>, fallback: Seq<char>) -> Seq<char> {
    match mac_address {
        Some(address) => address,
        None => fallback,
    }
}

/// Picks the key to encrypt under: the machine's hardware address where
/// it has one, else `fallback`.
pub fn machine_key(mac_address: &Option<String>, fallback: &str) -> (key: String)
    ensures
        key@ == key_of(text_of(*mac_address), fallback@),
{
    match mac_address {
        Some(address) => address.clone(),
        None => fallback.to_string(),
    }
}

/// Encrypts the password `pw` under `key`.
pub fn encrypt_password(key: &str, pw: &str) -> (r: String)
    ensures
        r@ == encrypted(key@, pw@),
        decrypted(key@, r@) == Some(pw@),
{
    encrypt_with(key, pw)
}

/// Decrypts the stored password `base64` under `key`.
pub fn decrypt_password(key: &str, base64: &str) -> (r: Result<String, DecryptionError>)
    ensures
        match r {
            Ok(pw) => decrypted(key@, base64@) == Some(pw@),
            Err(_) => decrypted(key@, base64@) is None,
        },
{
    match decrypt_with(key, base64) {
        Ok(pw) => Ok(pw),
        Err(_) => Err(DecryptionError {  }),
    }
}

} // verus!

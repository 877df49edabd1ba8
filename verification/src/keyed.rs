//! The keyed digest: HMAC-SHA256 of the password under the caller's key,
//! rendered as lower-case hexadecimal.

use crate::hex::{is_hex_digit, lemma_lower_hex_digits, lower_hex, to_lower_hex};
use hmac::crypto_mac::InvalidKeyLength;
use hmac::{Hmac, Mac};
use sha2::Sha256;
use vstd::prelude::*;
use vstd::utf8::*;

verus! {

/// The error with which `hmac` refuses a key.
#[verifier::external_type_specification]
#[verifier::external_body]
pub struct ExInvalidKeyLength(hmac::crypto_mac::InvalidKeyLength);

/// The HMAC-SHA256 code of `message` under `key`, as `hmac` and `sha2` compute it.
pub uninterp spec fn hmac_sha256(key: Seq<u8>, message: Seq<u8>) -> Seq<u8>;

/// The keyed digest of `password` under `key`: the code of the password's
/// UTF-8 bytes, in lower-case hexadecimal.
pub open spec fn keyed_digest(password: Seq<char>, key: Seq<u8>) -> Seq<char> {
    lower_hex(hmac_sha256(key, encode_utf8(password)))
}

/// A keyed digest holds nothing but hexadecimal digits.
pub proof fn lemma_keyed_digest_digits(password: Seq<char>, key: Seq<u8>)
    ensures
        forall|i: int|
            0 <= i < keyed_digest(password, key).len() ==> is_hex_digit(
                #[trigger] keyed_digest(password, key)[i],
            ),
{
    lemma_lower_hex_digits(hmac_sha256(key, encode_utf8(password)));
}

/// Computes the code of `message` under `key`.
///
/// Trusted: runs `Hmac::<Sha256>::new_varkey`, `Mac::input` and
/// `Mac::result`, and copies out the bytes of `MacResult::code`. The contract
/// claims that the bytes are the named code and that there are 32 of them
/// (the output size of SHA-256), and that no key is refused: `new_varkey` of
/// `Hmac` pads a short key and hashes a long one, and returns `Ok` on every
/// path.
#[verifier::external_body]
fn mac_code(key: &[u8], message: &[u8]) -> (code: Result<Vec<u8>, InvalidKeyLength>)
    ensures
        code is Ok,
        code matches Ok(bytes) ==> bytes@ == hmac_sha256(key@, message@) && bytes@.len() == 32,
{
    let mut mac = Hmac::<Sha256>::new_varkey(key)?;
    mac.input(message);
    Ok(mac.result().code().to_vec())
}

/// The keyed digest of `password` under `hmac_key`.
///
/// The result is a function of the two arguments alone: 64 hexadecimal
/// digits, the same on every call. With this keyed hash every key is usable,
/// so the error never comes.
pub fn hmac_password(password: &str, hmac_key: &[u8]) -> (digest: Result<String, InvalidKeyLength>)
    ensures
        digest is Ok,
        digest matches Ok(text) ==> text@ == keyed_digest(password@, hmac_key@),
        digest matches Ok(text) ==> text@.len() == 64,
{
    match mac_code(hmac_key, password.as_bytes()) {
        Ok(code) => Ok(to_lower_hex(code.as_slice())),
        Err(refusal) => Err(refusal),
    }
}

} // verus!

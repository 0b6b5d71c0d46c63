//! Encryption and decryption of whole in-memory buffers.
use vstd::prelude::*;

use crate::codec::{
    decode, encode, encoding, lemma_encoding_splits, nonce_of, salt_of, sealed_of, HEADER_LEN,
    NONCE_LEN, SALT_LEN,
};
use crate::crypto::{
    aes_256_gcm_open, aes_256_gcm_seal, derived_key, open_with, random_bytes, seal_with,
    MAX_PASSWORD_LEN, MAX_PLAINTEXT_LEN, TAG_LEN,
};
use crate::error::CryptError;

verus! {

/// The file that encrypting `plaintext` with `password` writes for a given
/// salt and nonce.
pub open spec fn encrypted_file(plaintext: Seq<u8>, password: Seq<u8>, salt: Seq<u8>, nonce: Seq<u8>) -> Seq<u8> {
    encoding(salt, nonce, aes_256_gcm_seal(derived_key(password, salt), nonce, plaintext))
}

/// What decrypting `file` with `password` gives.
pub open spec fn decrypted(file: Seq<u8>, password: Seq<u8>) -> Result<Seq<u8>, CryptError> {
    if file.len() < HEADER_LEN {
        Err(CryptError::FormatError)
    } else {
        match aes_256_gcm_open(derived_key(password, salt_of(file)), nonce_of(file), sealed_of(file)) {
            Some(p) => Ok(p),
            None => Err(CryptError::AuthenticationFailure),
        }
    }
}

/// Encrypts `plaintext` with `password` under the given salt and nonce; the
/// result decrypts with the same password to the plaintext.
pub fn encrypt_with(plaintext: &[u8], password: &[u8], salt: &[u8], nonce: &[u8]) -> (file: Vec<u8>)
    requires
        salt@.len() == SALT_LEN,
        nonce@.len() == NONCE_LEN,
        plaintext@.len() <= MAX_PLAINTEXT_LEN,
        password@.len() <= MAX_PASSWORD_LEN,
    ensures
        file@ == encrypted_file(plaintext@, password@, salt@, nonce@),
        file@.len() == HEADER_LEN + plaintext@.len() + TAG_LEN,
        decrypted(file@, password@) == Ok::<Seq<u8>, CryptError>(plaintext@),
{
    let key = crate::crypto::derive(password, salt);
    let sealed = seal_with(&key, nonce, plaintext);
    let file = encode(salt, nonce, &sealed);
    proof {
        lemma_encoding_splits(salt@, nonce@, sealed@);
    }
    file
}

/// Encrypts `plaintext` with `password` under a fresh random salt and nonce.
pub fn encrypt(plaintext: &[u8], password: &[u8]) -> (r: Result<Vec<u8>, CryptError>)
    requires
        plaintext@.len() <= MAX_PLAINTEXT_LEN,
        password@.len() <= MAX_PASSWORD_LEN,
    ensures
        r matches Ok(file) ==> {
            &&& exists|salt: Seq<u8>, nonce: Seq<u8>|
                salt.len() == SALT_LEN && nonce.len() == NONCE_LEN
                    && file@ == #[trigger] encrypted_file(plaintext@, password@, salt, nonce)
            &&& file@.len() == HEADER_LEN + plaintext@.len() + TAG_LEN
            &&& decrypted(file@, password@) == Ok::<Seq<u8>, CryptError>(plaintext@)
        },
        r matches Err(e) ==> e == CryptError::EntropyUnavailable,
{
    let salt = random_bytes(SALT_LEN)?;
    let nonce = random_bytes(NONCE_LEN)?;
    let file = encrypt_with(plaintext, password, &salt, &nonce);
    Ok(file)
}

/// Decrypts an encrypted file with `password`: `FormatError` for a stream
/// shorter than the header, `AuthenticationFailure` for a wrong password or a
/// damaged file.
pub fn decrypt(file: &[u8], password: &[u8]) -> (r: Result<Vec<u8>, CryptError>)
    requires
        password@.len() <= MAX_PASSWORD_LEN,
    ensures
        match decrypted(file@, password@) {
            Ok(p) => r is Ok && r->Ok_0@ == p,
            Err(e) => r == Err::<Vec<u8>, CryptError>(e),
        },
{
    let parts = decode(file)?;
    let key = crate::crypto::derive(password, &parts.salt);
    open_with(&key, &parts.nonce, &parts.sealed)
}

} // verus!

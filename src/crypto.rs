//! The primitives taken from `ring`: PBKDF2-HMAC-SHA256, AES-256-GCM and the
//! system's secure random source, each behind one trusted item.
use vstd::prelude::*;

use ring::aead;
use ring::pbkdf2;
use ring::rand::SecureRandom;

use crate::codec::{NONCE_LEN, SALT_LEN};
use crate::error::CryptError;

verus! {

/// Length of the derived AES-256 key.
pub const KEY_LEN: usize = 32;

/// Length of the GCM authentication tag appended to the ciphertext.
pub const TAG_LEN: usize = 16;

/// PBKDF2 iteration count; it is not recorded in the file.
pub const PBKDF2_ITERATIONS: u32 = 100_000;

/// Longest input that AES-GCM accepts: `2^36 - 32` bytes.
pub const MAX_PLAINTEXT_LEN: u64 = 68_719_476_704;

/// Longest secret that PBKDF2 accepts: SHA-256 counts its input in 64 bits.
pub const MAX_PASSWORD_LEN: u64 = 0x1fff_ffff_ffff_ffff;

#[verifier::external_type_specification]
#[verifier::external_body]
pub struct ExUnspecified(ring::error::Unspecified);

/// PBKDF2-HMAC-SHA256 of `secret` under `salt`, `iterations` rounds, `len` bytes.
pub uninterp spec fn pbkdf2_hmac_sha256(iterations: nat, salt: Seq<u8>, secret: Seq<u8>, len: nat) -> Seq<u8>;

/// AES-256-GCM encryption of `plaintext` with the tag appended, no associated data.
pub uninterp spec fn aes_256_gcm_seal(key: Seq<u8>, nonce: Seq<u8>, plaintext: Seq<u8>) -> Seq<u8>;

/// AES-256-GCM authenticated decryption, no associated data; `None` when the tag fails.
pub uninterp spec fn aes_256_gcm_open(key: Seq<u8>, nonce: Seq<u8>, sealed: Seq<u8>) -> Option<Seq<u8>>;

/// Relies on ring::pbkdf2::derive with PBKDF2_HMAC_SHA256: it fills `len`
/// bytes with a value that depends on its inputs alone; it panics only for an
/// output over `u32::MAX` digests or an input too long for SHA-256.
#[verifier::external_body]
fn pbkdf2_derive(iterations: u32, salt: &[u8], secret: &[u8], len: usize) -> (r: Vec<u8>)
    requires
        iterations >= 1,
        len <= KEY_LEN,
        salt@.len() == SALT_LEN,
        secret@.len() <= MAX_PASSWORD_LEN,
    ensures
        r@ == pbkdf2_hmac_sha256(iterations as nat, salt@, secret@, len as nat),
        r@.len() == len,
{
    let mut out = vec![0u8; len];
    let iterations = std::num::NonZeroU32::new(iterations).unwrap();
    pbkdf2::derive(pbkdf2::PBKDF2_HMAC_SHA256, iterations, salt, secret, &mut out);
    out
}

/// Relies on ring::aead::LessSafeKey::seal_in_place_append_tag with
/// AES_256_GCM and empty associated data: the ciphertext is as long as the
/// plaintext, followed by a 16-byte tag; the only refusal is an input over
/// `MAX_PLAINTEXT_LEN` bytes (the length test in gcm::Context::new); opening what was
/// sealed under the same key and nonce gives the plaintext back. The key and
/// nonce go through ring::aead::UnboundKey::new and
/// ring::aead::Nonce::try_assume_unique_for_key, which accept 32 and 12 bytes.
#[verifier::external_body]
fn seal(key: &[u8], nonce: &[u8], plaintext: &[u8]) -> (r: Result<Vec<u8>, ring::error::Unspecified>)
    requires
        key@.len() == KEY_LEN,
        nonce@.len() == NONCE_LEN,
    ensures
        plaintext@.len() <= MAX_PLAINTEXT_LEN ==> r is Ok,
        r matches Ok(c) ==> {
            &&& c@ == aes_256_gcm_seal(key@, nonce@, plaintext@)
            &&& c@.len() == plaintext@.len() + TAG_LEN
            &&& aes_256_gcm_open(key@, nonce@, c@) == Some(plaintext@)
        },
{
    let key = aead::LessSafeKey::new(aead::UnboundKey::new(&aead::AES_256_GCM, key)?);
    let nonce = aead::Nonce::try_assume_unique_for_key(nonce)?;
    let mut in_out = plaintext.to_vec();
    key.seal_in_place_append_tag(nonce, aead::Aad::empty(), &mut in_out)?;
    Ok(in_out)
}

/// Relies on ring::aead::LessSafeKey::open_in_place with AES_256_GCM and empty
/// associated data: it returns the plaintext exactly when the tag verifies
/// (input shorter than the tag never does). Key and nonce are built as in `seal`.
#[verifier::external_body]
fn open(key: &[u8], nonce: &[u8], sealed: &[u8]) -> (r: Result<Vec<u8>, ring::error::Unspecified>)
    requires
        key@.len() == KEY_LEN,
        nonce@.len() == NONCE_LEN,
    ensures
        match aes_256_gcm_open(key@, nonce@, sealed@) {
            Some(p) => r is Ok && r->Ok_0@ == p,
            None => r is Err,
        },
{
    let key = aead::LessSafeKey::new(aead::UnboundKey::new(&aead::AES_256_GCM, key)?);
    let nonce = aead::Nonce::try_assume_unique_for_key(nonce)?;
    let mut in_out = sealed.to_vec();
    let plaintext = key.open_in_place(nonce, aead::Aad::empty(), &mut in_out)?;
    Ok(plaintext.to_vec())
}

/// Relies on ring::rand::SystemRandom::fill: on success `len` bytes from the
/// operating system's secure generator; nothing is known of their values.
#[verifier::external_body]
fn system_random_fill(len: usize) -> (r: Result<Vec<u8>, ring::error::Unspecified>)
    ensures
        r matches Ok(v) ==> v@.len() == len,
{
    let mut out = vec![0u8; len];
    ring::rand::SystemRandom::new().fill(&mut out)?;
    Ok(out)
}

/// The key stretched from `password` under `salt`.
pub open spec fn derived_key(password: Seq<u8>, salt: Seq<u8>) -> Seq<u8> {
    pbkdf2_hmac_sha256(PBKDF2_ITERATIONS as nat, salt, password, KEY_LEN as nat)
}

/// Stretches a password and a salt into a 32-byte key.
pub fn derive(password: &[u8], salt: &[u8]) -> (key: Vec<u8>)
    requires
        salt@.len() == SALT_LEN,
        password@.len() <= MAX_PASSWORD_LEN,
    ensures
        key@ == derived_key(password@, salt@),
        key@.len() == KEY_LEN,
{
    pbkdf2_derive(PBKDF2_ITERATIONS, salt, password, KEY_LEN)
}

/// Deriving twice from the same password and salt gives the same key.
pub proof fn lemma_derive_deterministic(password: Seq<u8>, salt: Seq<u8>, key1: Seq<u8>, key2: Seq<u8>)
    requires
        key1 == derived_key(password, salt),
        key2 == derived_key(password, salt),
    ensures
        key1 == key2,
{
}

/// Seals `plaintext` under a 32-byte key and a 12-byte nonce.
pub fn seal_with(key: &[u8], nonce: &[u8], plaintext: &[u8]) -> (sealed: Vec<u8>)
    requires
        key@.len() == KEY_LEN,
        nonce@.len() == NONCE_LEN,
        plaintext@.len() <= MAX_PLAINTEXT_LEN,
    ensures
        sealed@ == aes_256_gcm_seal(key@, nonce@, plaintext@),
        sealed@.len() == plaintext@.len() + TAG_LEN,
        aes_256_gcm_open(key@, nonce@, sealed@) == Some(plaintext@),
{
    match seal(key, nonce, plaintext) {
        Ok(c) => c,
        Err(_) => {
            assert(false);
            Vec::new()
        },
    }
}

/// Opens sealed data under a 32-byte key and a 12-byte nonce; a tag that does
/// not verify gives `AuthenticationFailure`.
pub fn open_with(key: &[u8], nonce: &[u8], sealed: &[u8]) -> (r: Result<Vec<u8>, CryptError>)
    requires
        key@.len() == KEY_LEN,
        nonce@.len() == NONCE_LEN,
    ensures
        match aes_256_gcm_open(key@, nonce@, sealed@) {
            Some(p) => r is Ok && r->Ok_0@ == p,
            None => r == Err::<Vec<u8>, CryptError>(CryptError::AuthenticationFailure),
        },
{
    match open(key, nonce, sealed) {
        Ok(p) => Ok(p),
        Err(_) => Err(CryptError::AuthenticationFailure),
    }
}

/// Draws `len` bytes from the system's secure random source; a source that
/// cannot be read gives `EntropyUnavailable`.
pub fn random_bytes(len: usize) -> (r: Result<Vec<u8>, CryptError>)
    ensures
        r matches Ok(v) ==> v@.len() == len,
        r matches Err(e) ==> e == CryptError::EntropyUnavailable,
{
    match system_random_fill(len) {
        Ok(v) => Ok(v),
        Err(_) => Err(CryptError::EntropyUnavailable),
    }
}

} // verus!

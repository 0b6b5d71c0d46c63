//! Password-based file encryption: a salt and a nonce are drawn at random, a
//! key is stretched from the password with PBKDF2-HMAC-SHA256, the plaintext is
//! sealed with AES-256-GCM, and the three parts are laid out as
//! `salt(16) ‖ nonce(12) ‖ ciphertext-with-tag`.
use vstd::prelude::*;

pub mod codec;
pub mod comment;
pub mod crypto;
pub mod error;
pub mod pipeline;

verus! {

} // verus!

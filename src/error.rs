use vstd::prelude::*;

verus! {

/// The closed set of failures of an encryption or decryption.
#[derive(Clone, Copy, Debug, PartialEq, Eq)]
pub enum CryptError {
    /// Reading or writing the caller's files failed.
    IoError,
    /// The operating system's secure random source could not be read.
    EntropyUnavailable,
    /// The byte stream is shorter than the fixed salt and nonce header.
    FormatError,
    /// The ciphertext did not authenticate: a wrong password or a damaged file.
    AuthenticationFailure,
}

} // verus!

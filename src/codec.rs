//! The on-disk layout: `salt ‖ nonce ‖ sealed`, with no length prefixes.
use vstd::prelude::*;

use crate::error::CryptError;

verus! {

/// Length of the random salt fed to the key derivation.
pub const SALT_LEN: usize = 16;

/// Length of the AES-GCM nonce.
pub const NONCE_LEN: usize = 12;

/// Length of the fixed header that precedes the sealed data.
pub const HEADER_LEN: usize = 28;

/// The three fields of an encrypted file.
pub struct FileParts {
    pub salt: Vec<u8>,
    pub nonce: Vec<u8>,
    pub sealed: Vec<u8>,
}

/// The bytes of an encrypted file holding the given fields.
pub open spec fn encoding(salt: Seq<u8>, nonce: Seq<u8>, sealed: Seq<u8>) -> Seq<u8> {
    salt + nonce + sealed
}

/// The salt stored in a file of at least `HEADER_LEN` bytes.
pub open spec fn salt_of(file: Seq<u8>) -> Seq<u8> {
    file.subrange(0, SALT_LEN as int)
}

/// The nonce stored in a file of at least `HEADER_LEN` bytes.
pub open spec fn nonce_of(file: Seq<u8>) -> Seq<u8> {
    file.subrange(SALT_LEN as int, HEADER_LEN as int)
}

/// The sealed data stored in a file of at least `HEADER_LEN` bytes.
pub open spec fn sealed_of(file: Seq<u8>) -> Seq<u8> {
    file.subrange(HEADER_LEN as int, file.len() as int)
}

/// Splitting the encoding of well-sized fields gives the fields back.
pub proof fn lemma_encoding_splits(salt: Seq<u8>, nonce: Seq<u8>, sealed: Seq<u8>)
    requires
        salt.len() == SALT_LEN,
        nonce.len() == NONCE_LEN,
    ensures
        encoding(salt, nonce, sealed).len() == HEADER_LEN + sealed.len(),
        salt_of(encoding(salt, nonce, sealed)) == salt,
        nonce_of(encoding(salt, nonce, sealed)) == nonce,
        sealed_of(encoding(salt, nonce, sealed)) == sealed,
{
    let file = encoding(salt, nonce, sealed);
    assert(salt_of(file) =~= salt);
    assert(nonce_of(file) =~= nonce);
    assert(sealed_of(file) =~= sealed);
}

/// Appends `src[start..end]` to `out`.
fn push_range(out: &mut Vec<u8>, src: &[u8], start: usize, end: usize)
    requires
        start <= end <= src@.len(),
    ensures
        final(out)@ == old(out)@ + src@.subrange(start as int, end as int),
{
    let ghost base = old(out)@;
    let mut i: usize = start;
    while i < end
        invariant
            start <= i <= end <= src@.len(),
            out@ == base + src@.subrange(start as int, i as int),
        decreases end - i,
    {
        out.push(src[i]);
        i = i + 1;
        assert(out@ =~= base + src@.subrange(start as int, i as int));
    }
}

/// Lays out the three fields of an encrypted file one after the other.
pub fn encode(salt: &[u8], nonce: &[u8], sealed: &[u8]) -> (r: Vec<u8>)
    requires
        salt@.len() == SALT_LEN,
        nonce@.len() == NONCE_LEN,
    ensures
        r@ == encoding(salt@, nonce@, sealed@),
{
    let mut r: Vec<u8> = Vec::new();
    push_range(&mut r, salt, 0, salt.len());
    push_range(&mut r, nonce, 0, nonce.len());
    push_range(&mut r, sealed, 0, sealed.len());
    assert(r@ =~= encoding(salt@, nonce@, sealed@));
    r
}

/// Splits an encrypted file into its salt, nonce and sealed data; a stream
/// shorter than the header is refused with `FormatError`.
pub fn decode(bytes: &[u8]) -> (r: Result<FileParts, CryptError>)
    ensures
        bytes@.len() < HEADER_LEN <==> r is Err,
        r is Err ==> r == Err::<FileParts, CryptError>(CryptError::FormatError),
        r matches Ok(p) ==> {
            &&& p.salt@ == salt_of(bytes@)
            &&& p.nonce@ == nonce_of(bytes@)
            &&& p.sealed@ == sealed_of(bytes@)
        },
{
    if bytes.len() < HEADER_LEN {
        return Err(CryptError::FormatError);
    }
    let mut salt: Vec<u8> = Vec::new();
    push_range(&mut salt, bytes, 0, SALT_LEN);
    let mut nonce: Vec<u8> = Vec::new();
    push_range(&mut nonce, bytes, SALT_LEN, HEADER_LEN);
    let mut sealed: Vec<u8> = Vec::new();
    push_range(&mut sealed, bytes, HEADER_LEN, bytes.len());
    assert(salt@ =~= salt_of(bytes@));
    assert(nonce@ =~= nonce_of(bytes@));
    assert(sealed@ =~= sealed_of(bytes@));
    Ok(FileParts { salt, nonce, sealed })
}

} // verus!

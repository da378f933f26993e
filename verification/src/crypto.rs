//! The authenticated-encryption service the session consumes, together with
//! text decoding of opened plaintexts. The primitives themselves live in an
//! outside crate; their behaviour is stated here and believed, not proved.

use vstd::prelude::*;

use vstd::utf8::{decode_utf8, valid_utf8};

verus! {

/// Size in bytes of the pre-shared secret key.
pub const KEY_LEN: usize = 32;

/// Bytes the authenticated-encryption primitive adds in front of every
/// plaintext: the authentication tag.
pub const TAG_LEN: usize = 16;

/// The ciphertext the authenticated-encryption primitive produces for a
/// plaintext under a given nonce and key. A pure function of the three
/// arguments; its bytes are not spelled out here.
pub uninterp spec fn seal_of(m: Seq<u8>, nonce: Seq<u8>, key: Seq<u8>) -> Seq<u8>;

/// The plaintext the primitive recovers from a ciphertext under a given nonce
/// and key: `Some` exactly when the ciphertext authenticates. A pure function
/// of the three arguments.
pub uninterp spec fn open_of(c: Seq<u8>, nonce: Seq<u8>, key: Seq<u8>) -> Option<Seq<u8>>;

/// Relies on sodiumoxide::crypto::secretbox::seal: encrypts and authenticates
/// `m` under a 24-byte nonce and 32-byte key; the ciphertext is the plaintext
/// length plus the 16-byte tag, and secretbox::open recovers exactly `m` from
/// it under the same nonce and key.
#[verifier::external_body]
pub(crate) fn seal_bytes(m: &[u8], nonce: &Vec<u8>, key: &Vec<u8>) -> (c: Vec<u8>)
    requires
        nonce@.len() == crate::NONCE_LEN,
        key@.len() == KEY_LEN,
    ensures
        c@ == seal_of(m@, nonce@, key@),
        c@.len() == m@.len() + TAG_LEN,
        open_of(c@, nonce@, key@) == Some(m@),
{
    let n = sodiumoxide::crypto::secretbox::Nonce::from_slice(nonce).unwrap();
    let k = sodiumoxide::crypto::secretbox::Key::from_slice(key).unwrap();
    sodiumoxide::crypto::secretbox::seal(m, &n, &k)
}

/// Relies on sodiumoxide::crypto::secretbox::open: verifies and decrypts a
/// ciphertext under a 24-byte nonce and 32-byte key, failing when the
/// ciphertext does not authenticate; a successful result is 16 bytes shorter
/// than the ciphertext.
#[verifier::external_body]
pub(crate) fn open_bytes(c: &Vec<u8>, nonce: &Vec<u8>, key: &Vec<u8>) -> (m: Option<Vec<u8>>)
    requires
        nonce@.len() == crate::NONCE_LEN,
        key@.len() == KEY_LEN,
    ensures
        match m {
            Some(p) => open_of(c@, nonce@, key@) == Some(p@) && p@.len() + TAG_LEN == c@.len(),
            None => open_of(c@, nonce@, key@) is None,
        },
{
    let n = sodiumoxide::crypto::secretbox::Nonce::from_slice(nonce).unwrap();
    let k = sodiumoxide::crypto::secretbox::Key::from_slice(key).unwrap();
    sodiumoxide::crypto::secretbox::open(c, &n, &k).ok()
}

/// Relies on String::from_utf8: succeeds exactly when the bytes are valid
/// UTF-8, and then returns the string those bytes encode.
#[verifier::external_body]
pub(crate) fn bytes_to_string(b: Vec<u8>) -> (r: Option<String>)
    ensures
        r is Some <==> valid_utf8(b@),
        r matches Some(s) ==> s@ == decode_utf8(b@),
{
    String::from_utf8(b).ok()
}

} // verus!

//! The cryptographic primitives this library builds on, each behind one
//! trusted item: PBKDF2-HMAC-SHA1, SHA-1 and AES-256 in CBC mode with PKCS#7
//! padding. Their results are named by spec functions without a body; the
//! facts stated beside the names are those that the crates' sources show.
use aes::cipher::block_padding::{Pkcs7, UnpadError};
use aes::cipher::{BlockDecryptMut, BlockEncryptMut, KeyIvInit};
use sha1::{Digest, Sha1};
use vstd::prelude::*;

verus! {

/// The error of `block_padding`, returned when a ciphertext does not unpad.
#[verifier::external_type_specification]
#[verifier::external_body]
pub struct ExUnpadError(UnpadError);

/// The 48 bytes that PBKDF2 with HMAC-SHA1 derives from a password, a salt
/// and a round count.
pub uninterp spec fn pbkdf2_hmac_sha1(password: Seq<u8>, salt: Seq<u8>, rounds: u32) -> [u8; 48];

/// The SHA-1 digest of a byte sequence.
pub uninterp spec fn sha1_digest(data: Seq<u8>) -> [u8; 20];

/// The AES-256-CBC encryption, with PKCS#7 padding, of `plain` under `key` and `iv`.
pub uninterp spec fn aes256_cbc_encrypt(key: Seq<u8>, iv: Seq<u8>, plain: Seq<u8>) -> Seq<u8>;

/// The AES-256-CBC decryption of `cipher` under `key` and `iv`, with its
/// PKCS#7 padding removed; `None` where the padding is malformed.
pub uninterp spec fn aes256_cbc_decrypt(key: Seq<u8>, iv: Seq<u8>, cipher: Seq<u8>) -> Option<
    Seq<u8>,
>;

/// Relies on `pbkdf2::pbkdf2_hmac_array::<Sha1, 48>`: a function of the
/// password, the salt and the round count alone.
#[verifier::external_body]
pub(crate) fn pbkdf2_sha1_48(password: &[u8], salt: &[u8], rounds: u32) -> (r: [u8; 48])
    ensures
        r == pbkdf2_hmac_sha1(password@, salt@, rounds),
{
    pbkdf2::pbkdf2_hmac_array::<Sha1, 48>(password, salt, rounds)
}

/// Relies on `sha1::Sha1` (`Digest::new_with_prefix`, then `finalize`): the
/// 20-byte digest of the data.
#[verifier::external_body]
pub(crate) fn sha1_checksum(data: &[u8]) -> (r: Vec<u8>)
    ensures
        r@ == sha1_digest(data@)@,
{
    Sha1::new_with_prefix(data).finalize().to_vec()
}

/// Relies on `cbc::Encryptor<aes::Aes256Enc>` and
/// `BlockEncryptMut::encrypt_padded_vec_mut::<Pkcs7>`: PKCS#7 always adds
/// between 1 and 16 bytes, so the output is the input's length rounded up to
/// the next whole block. `new` panics unless the key has 32 bytes and the IV 16.
#[verifier::external_body]
pub(crate) fn aes_encrypt(key: &[u8], iv: &[u8], plain: &[u8]) -> (r: Vec<u8>)
    requires
        key@.len() == 32,
        iv@.len() == 16,
    ensures
        r@ == aes256_cbc_encrypt(key@, iv@, plain@),
        r@.len() == (plain@.len() / 16 + 1) * 16,
{
    cbc::Encryptor::<aes::Aes256Enc>::new(key.into(), iv.into()).encrypt_padded_vec_mut::<Pkcs7>(
        plain,
    )
}

/// Relies on `cbc::Decryptor<aes::Aes256Dec>` and
/// `BlockDecryptMut::decrypt_padded_vec_mut::<Pkcs7>`: it fails on an input
/// that is empty or not a whole number of blocks, and on malformed padding.
/// It inverts `encrypt_padded_vec_mut` under the same key and IV, both ways:
/// unpadding checks every padding byte, so what it accepts is exactly what
/// encryption of its output produces, and it strips between 1 and 16 bytes.
/// `new` panics unless the key has 32 bytes and the IV 16.
#[verifier::external_body]
pub(crate) fn aes_decrypt(key: &[u8], iv: &[u8], cipher: &[u8]) -> (r: Result<Vec<u8>, UnpadError>)
    requires
        key@.len() == 32,
        iv@.len() == 16,
    ensures
        r is Ok <==> aes256_cbc_decrypt(key@, iv@, cipher@) is Some,
        r matches Ok(v) ==> aes256_cbc_decrypt(key@, iv@, cipher@) == Some(v@),
        cipher@.len() == 0 || cipher@.len() % 16 != 0 ==> r is Err,
        forall|p: Seq<u8>| #[trigger] aes256_cbc_encrypt(key@, iv@, p) == cipher@ ==> r is Ok && r->Ok_0@ == p,
        r is Ok ==> aes256_cbc_encrypt(key@, iv@, r->Ok_0@) == cipher@,
        r is Ok ==> r->Ok_0@.len() < cipher@.len() && cipher@.len() <= r->Ok_0@.len() + 16,
{
    cbc::Decryptor::<aes::Aes256Dec>::new(key.into(), iv.into()).decrypt_padded_vec_mut::<Pkcs7>(
        cipher,
    )
}

} // verus!

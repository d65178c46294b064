//! Encryption and decryption of the two file categories.
//!
//! Both categories use AES-256-CBC with PKCS#7 padding, under a key and IV
//! that PBKDF2-HMAC-SHA1 derives from the category's passphrase and the
//! shared salt. `Progress.dat` files carry, in front of the ciphertext, the
//! SHA-1 digest of that ciphertext.
use crate::constants::{
    contraption_pwd, contraption_pwd_spec, progress_pwd, progress_pwd_spec, salt, salt_spec,
    DERIVED_LEN, IV_LEN, KEY_LEN, PBKDF2_ITERATIONS, SHA1_HEADER_LEN,
};
use crate::errors::{outcome, Error, ErrorView};
use crate::primitives::{
    aes256_cbc_decrypt, aes256_cbc_encrypt, aes_decrypt, aes_encrypt, pbkdf2_hmac_sha1,
    pbkdf2_sha1_48, sha1_checksum, sha1_digest,
};
use vstd::prelude::*;

verus! {

/// The AES key derived from a passphrase: the first 32 derived bytes.
pub open spec fn derived_key(password: Seq<u8>) -> Seq<u8> {
    pbkdf2_hmac_sha1(password, salt_spec(), PBKDF2_ITERATIONS)@.subrange(0, KEY_LEN as int)
}

/// The IV derived from a passphrase: the 16 derived bytes after the key.
pub open spec fn derived_iv(password: Seq<u8>) -> Seq<u8> {
    pbkdf2_hmac_sha1(password, salt_spec(), PBKDF2_ITERATIONS)@.subrange(
        KEY_LEN as int,
        DERIVED_LEN as int,
    )
}

/// The ciphertext of `plain` under the key material of `password`.
pub open spec fn encrypted(password: Seq<u8>, plain: Seq<u8>) -> Seq<u8> {
    aes256_cbc_encrypt(derived_key(password), derived_iv(password), plain)
}

/// The plaintext of `cipher` under the key material of `password`.
pub open spec fn decrypted(password: Seq<u8>, cipher: Seq<u8>) -> Result<Seq<u8>, ErrorView> {
    match aes256_cbc_decrypt(derived_key(password), derived_iv(password), cipher) {
        Some(plain) => Ok(plain),
        None => Err(ErrorView::CbcPadding),
    }
}

/// A ciphertext with its SHA-1 digest in front.
pub open spec fn framed(cipher: Seq<u8>) -> Seq<u8> {
    sha1_digest(cipher)@ + cipher
}

/// The ciphertext inside a framed buffer, once its header is checked.
pub open spec fn unframed(buffer: Seq<u8>) -> Result<Seq<u8>, ErrorView> {
    if buffer.len() < SHA1_HEADER_LEN {
        Err(ErrorView::Sha1HashLength(buffer.len() as usize))
    } else {
        let header = buffer.subrange(0, SHA1_HEADER_LEN as int);
        let body = buffer.subrange(SHA1_HEADER_LEN as int, buffer.len() as int);
        if sha1_digest(body)@ == header {
            Ok(body)
        } else {
            Err(ErrorView::Sha1Checksum(header, sha1_digest(body)@))
        }
    }
}

/// The `.contraption` file that holds `plain`.
pub open spec fn contraption_ciphertext(plain: Seq<u8>) -> Seq<u8> {
    encrypted(contraption_pwd_spec(), plain)
}

/// What decrypting `cipher` as a `.contraption` file gives.
pub open spec fn contraption_plaintext(cipher: Seq<u8>) -> Result<Seq<u8>, ErrorView> {
    decrypted(contraption_pwd_spec(), cipher)
}

/// The `Progress.dat` file that holds `plain`.
pub open spec fn progress_ciphertext(plain: Seq<u8>) -> Seq<u8> {
    framed(encrypted(progress_pwd_spec(), plain))
}

/// What decrypting `buffer` as a `Progress.dat` file gives.
pub open spec fn progress_plaintext(buffer: Seq<u8>) -> Result<Seq<u8>, ErrorView> {
    match unframed(buffer) {
        Ok(body) => decrypted(progress_pwd_spec(), body),
        Err(e) => Err(e),
    }
}

/// Derives the key and the IV of a passphrase.
fn derive_key_iv(password: &[u8]) -> (r: (Vec<u8>, Vec<u8>))
    ensures
        r.0@ == derived_key(password@),
        r.1@ == derived_iv(password@),
{
    let salt = salt();
    let bytes = pbkdf2_sha1_48(password, salt.as_slice(), PBKDF2_ITERATIONS);
    let mut key: Vec<u8> = Vec::with_capacity(KEY_LEN);
    let mut i: usize = 0;
    while i < KEY_LEN
        invariant
            i <= KEY_LEN,
            bytes == pbkdf2_hmac_sha1(password@, salt_spec(), PBKDF2_ITERATIONS),
            key@ == bytes@.subrange(0, i as int),
        decreases KEY_LEN - i,
    {
        key.push(bytes[i]);
        i = i + 1;
    }
    let mut iv: Vec<u8> = Vec::with_capacity(IV_LEN);
    while i < DERIVED_LEN
        invariant
            KEY_LEN <= i <= DERIVED_LEN,
            bytes == pbkdf2_hmac_sha1(password@, salt_spec(), PBKDF2_ITERATIONS),
            key@ == bytes@.subrange(0, KEY_LEN as int),
            iv@ == bytes@.subrange(KEY_LEN as int, i as int),
        decreases DERIVED_LEN - i,
    {
        iv.push(bytes[i]);
        i = i + 1;
    }
    (key, iv)
}

/// Encrypts `buffer` under the key material of `password`.
fn encrypt_with(password: &[u8], buffer: &[u8]) -> (r: Vec<u8>)
    ensures
        r@ == encrypted(password@, buffer@),
        r@.len() == (buffer@.len() / 16 + 1) * 16,
{
    let (key, iv) = derive_key_iv(password);
    aes_encrypt(key.as_slice(), iv.as_slice(), buffer)
}

/// Decrypts `buffer` under the key material of `password`.
fn decrypt_with(password: &[u8], buffer: &[u8]) -> (r: Result<Vec<u8>, Error>)
    ensures
        outcome(r) == decrypted(password@, buffer@),
        r matches Ok(plain) ==> encrypted(password@, plain@) == buffer@,
        r matches Ok(plain) ==> plain@.len() < buffer@.len() <= plain@.len() + 16,
        buffer@.len() == 0 || buffer@.len() % 16 != 0 ==> outcome(r) == Err::<Seq<u8>, ErrorView>(
            ErrorView::CbcPadding,
        ),
        forall|plain: Seq<u8>|
            #[trigger] encrypted(password@, plain) == buffer@ ==> outcome(r) == Ok::<
                Seq<u8>,
                ErrorView,
            >(plain),
{
    let (key, iv) = derive_key_iv(password);
    match aes_decrypt(key.as_slice(), iv.as_slice(), buffer) {
        Ok(plain) => Ok(plain),
        Err(_) => Err(Error::CbcPadding),
    }
}

/// Encrypts the contents of a `.contraption` file.
pub fn encrypt_contraption(buffer: &[u8]) -> (r: Vec<u8>)
    ensures
        r@ == contraption_ciphertext(buffer@),
        r@.len() == (buffer@.len() / 16 + 1) * 16,
{
    let password = contraption_pwd();
    encrypt_with(password.as_slice(), buffer)
}

/// Decrypts a `.contraption` file. Whatever `encrypt_contraption` produced
/// decrypts back to the bytes it was given, and a buffer decrypts only where
/// it is exactly the encryption of the result.
pub fn decrypt_contraption(buffer: &[u8]) -> (r: Result<Vec<u8>, Error>)
    ensures
        outcome(r) == contraption_plaintext(buffer@),
        r matches Ok(plain) ==> contraption_ciphertext(plain@) == buffer@,
        r matches Ok(plain) ==> plain@.len() < buffer@.len() <= plain@.len() + 16,
        buffer@.len() == 0 || buffer@.len() % 16 != 0 ==> outcome(r) == Err::<Seq<u8>, ErrorView>(
            ErrorView::CbcPadding,
        ),
        forall|plain: Seq<u8>|
            #[trigger] contraption_ciphertext(plain) == buffer@ ==> outcome(r) == Ok::<
                Seq<u8>,
                ErrorView,
            >(plain),
{
    let password = contraption_pwd();
    decrypt_with(password.as_slice(), buffer)
}

/// Whether two byte slices hold the same bytes.
fn bytes_equal(a: &[u8], b: &[u8]) -> (r: bool)
    ensures
        r == (a@ == b@),
{
    if a.len() != b.len() {
        return false;
    }
    let mut i: usize = 0;
    while i < a.len()
        invariant
            i <= a@.len(),
            a@.len() == b@.len(),
            a@.subrange(0, i as int) == b@.subrange(0, i as int),
        decreases a@.len() - i,
    {
        if a[i] != b[i] {
            assert(a@[i as int] != b@[i as int]);
            return false;
        }
        assert(a@.subrange(0, i + 1) == a@.subrange(0, i as int).push(a@[i as int]));
        assert(b@.subrange(0, i + 1) == b@.subrange(0, i as int).push(b@[i as int]));
        i = i + 1;
    }
    assert(a@ == a@.subrange(0, i as int));
    assert(b@ == b@.subrange(0, i as int));
    true
}

/// Puts the SHA-1 digest of a ciphertext in front of it.
pub fn frame(cipher: &[u8]) -> (r: Vec<u8>)
    ensures
        r@ == framed(cipher@),
        r@.len() == SHA1_HEADER_LEN + cipher@.len(),
{
    let mut result = sha1_checksum(cipher);
    let mut body = vstd::slice::slice_to_vec(cipher);
    result.append(&mut body);
    result
}

/// Checks the SHA-1 header of a framed buffer and returns the ciphertext
/// after it.
pub fn unframe(buffer: &[u8]) -> (r: Result<Vec<u8>, Error>)
    ensures
        outcome(r) == unframed(buffer@),
        r matches Ok(cipher) ==> framed(cipher@) == buffer@,
        forall|cipher: Seq<u8>|
            #[trigger] framed(cipher) == buffer@ ==> outcome(r) == Ok::<Seq<u8>, ErrorView>(
                cipher,
            ),
{
    if buffer.len() < SHA1_HEADER_LEN {
        return Err(Error::Sha1HashLength(buffer.len()));
    }
    let (expected, body) = buffer.split_at(SHA1_HEADER_LEN);
    let got = sha1_checksum(body);
    if !bytes_equal(expected, got.as_slice()) {
        assert forall|cipher: Seq<u8>| #[trigger] framed(cipher) != buffer@ by {
            if framed(cipher) == buffer@ {
                assert(body@ == cipher);
                assert(expected@ == sha1_digest(cipher)@);
            }
        }
        return Err(Error::Sha1Checksum(vstd::slice::slice_to_vec(expected), got));
    }
    assert forall|cipher: Seq<u8>| #[trigger] framed(cipher) == buffer@ implies body@ == cipher by {
        assert(buffer@.subrange(SHA1_HEADER_LEN as int, buffer@.len() as int) == cipher);
    }
    Ok(vstd::slice::slice_to_vec(body))
}

/// Encrypts the contents of a `Progress.dat` file: the ciphertext, with its
/// SHA-1 digest in front.
pub fn encrypt_progress(buffer: &[u8]) -> (r: Vec<u8>)
    ensures
        r@ == progress_ciphertext(buffer@),
        r@.len() == SHA1_HEADER_LEN + (buffer@.len() / 16 + 1) * 16,
        r@.subrange(0, SHA1_HEADER_LEN as int) == sha1_digest(
            r@.subrange(SHA1_HEADER_LEN as int, r@.len() as int),
        )@,
{
    let password = progress_pwd();
    let cipher = encrypt_with(password.as_slice(), buffer);
    let r = frame(cipher.as_slice());
    assert(r@.subrange(SHA1_HEADER_LEN as int, r@.len() as int) == cipher@);
    r
}

/// Decrypts a `Progress.dat` file: checks its SHA-1 header, then decrypts the
/// ciphertext after it. Whatever `encrypt_progress` produced decrypts back to
/// the bytes it was given, and a buffer decrypts only where it is exactly the
/// encryption of the result.
pub fn decrypt_progress(buffer: &[u8]) -> (r: Result<Vec<u8>, Error>)
    ensures
        outcome(r) == progress_plaintext(buffer@),
        r matches Ok(plain) ==> progress_ciphertext(plain@) == buffer@,
        r matches Ok(plain) ==> plain@.len() + SHA1_HEADER_LEN < buffer@.len() <= plain@.len()
            + SHA1_HEADER_LEN + 16,
        buffer@.len() < SHA1_HEADER_LEN ==> outcome(r) == Err::<Seq<u8>, ErrorView>(
            ErrorView::Sha1HashLength(buffer@.len() as usize),
        ),
        unframed(buffer@) matches Ok(body) && (body.len() == 0 || body.len() % 16 != 0)
            ==> outcome(r) == Err::<Seq<u8>, ErrorView>(ErrorView::CbcPadding),
        forall|plain: Seq<u8>|
            #[trigger] progress_ciphertext(plain) == buffer@ ==> outcome(r) == Ok::<
                Seq<u8>,
                ErrorView,
            >(plain),
{
    let body = match unframe(buffer) {
        Ok(body) => body,
        Err(e) => {
            assert forall|plain: Seq<u8>| #[trigger] progress_ciphertext(plain) != buffer@ by {
                if progress_ciphertext(plain) == buffer@ {
                    assert(framed(encrypted(progress_pwd_spec(), plain)) == buffer@);
                }
            }
            return Err(e);
        },
    };
    let password = progress_pwd();
    let r = decrypt_with(password.as_slice(), body.as_slice());
    assert forall|plain: Seq<u8>| #[trigger] progress_ciphertext(plain) == buffer@ implies outcome(
        r,
    ) == Ok::<Seq<u8>, ErrorView>(plain) by {
        assert(framed(encrypted(progress_pwd_spec(), plain)) == buffer@);
    }
    r
}

/// `buffer` with bit `bit` of byte `index` flipped.
pub open spec fn flip_bit(buffer: Seq<u8>, index: int, bit: u8) -> Seq<u8> {
    buffer.update(index, buffer[index] ^ (1u8 << bit))
}

/// The ciphertext behind the SHA-1 header of a framed buffer.
pub open spec fn frame_body(buffer: Seq<u8>) -> Seq<u8> {
    buffer.subrange(SHA1_HEADER_LEN as int, buffer.len() as int)
}

/// Flipping one bit of the ciphertext of a `Progress.dat` file, behind its
/// header, makes decryption fail with a checksum mismatch that reports the
/// stored header and the digest of the changed ciphertext. This holds
/// wherever the changed ciphertext's SHA-1 digest differs from the
/// original's, that is, short of a SHA-1 collision.
pub proof fn lemma_progress_bit_flip_detected(plain: Seq<u8>, index: int, bit: u8)
    requires
        SHA1_HEADER_LEN <= index < progress_ciphertext(plain).len(),
        bit < 8,
        sha1_digest(frame_body(flip_bit(progress_ciphertext(plain), index, bit))) != sha1_digest(
            encrypted(progress_pwd_spec(), plain),
        ),
    ensures
        progress_plaintext(flip_bit(progress_ciphertext(plain), index, bit)) == Err::<
            Seq<u8>,
            ErrorView,
        >(
            ErrorView::Sha1Checksum(
                sha1_digest(encrypted(progress_pwd_spec(), plain))@,
                sha1_digest(frame_body(flip_bit(progress_ciphertext(plain), index, bit)))@,
            ),
        ),
{
    let cipher = encrypted(progress_pwd_spec(), plain);
    let original = progress_ciphertext(plain);
    let flipped = flip_bit(original, index, bit);
    assert(flipped.subrange(0, SHA1_HEADER_LEN as int) == original.subrange(
        0,
        SHA1_HEADER_LEN as int,
    ));
    assert(original.subrange(0, SHA1_HEADER_LEN as int) == sha1_digest(cipher)@);
    let d1 = sha1_digest(frame_body(flipped));
    let d2 = sha1_digest(cipher);
    if d1@ == d2@ {
        assert(d1 == d2);
    }
}

/// A `.contraption` file given a valid SHA-1 header fails to decrypt as a
/// `Progress.dat` file with a padding error, never yielding other bytes,
/// wherever AES-CBC decryption of it under the `Progress.dat` key material
/// rejects its padding. A wrong-key decryption passes the padding check by
/// chance for some inputs, which this leaves out.
pub proof fn lemma_contraption_rejected_as_progress(plain: Seq<u8>)
    requires
        aes256_cbc_decrypt(
            derived_key(progress_pwd_spec()),
            derived_iv(progress_pwd_spec()),
            contraption_ciphertext(plain),
        ) is None,
    ensures
        progress_plaintext(framed(contraption_ciphertext(plain))) == Err::<Seq<u8>, ErrorView>(
            ErrorView::CbcPadding,
        ),
{
    let cipher = contraption_ciphertext(plain);
    assert(framed(cipher).subrange(0, SHA1_HEADER_LEN as int) == sha1_digest(cipher)@);
    assert(framed(cipher).subrange(SHA1_HEADER_LEN as int, framed(cipher).len() as int) == cipher);
}

/// The ciphertext of a `Progress.dat` file, without its header, fails to
/// decrypt as a `.contraption` file with a padding error, never yielding
/// other bytes, wherever AES-CBC decryption of it under the `.contraption`
/// key material rejects its padding. A wrong-key decryption passes the
/// padding check by chance for some inputs, which this leaves out.
pub proof fn lemma_progress_rejected_as_contraption(plain: Seq<u8>)
    requires
        aes256_cbc_decrypt(
            derived_key(contraption_pwd_spec()),
            derived_iv(contraption_pwd_spec()),
            frame_body(progress_ciphertext(plain)),
        ) is None,
    ensures
        contraption_plaintext(frame_body(progress_ciphertext(plain))) == Err::<
            Seq<u8>,
            ErrorView,
        >(ErrorView::CbcPadding),
{
}

} // verus!

//! Encryption and decryption of Bad Piggies user data files.
pub mod cli;
pub mod constants;
pub mod crypto;
pub mod errors;
pub mod mode;
pub mod primitives;
pub mod resource;

pub use crate::cli::Categories;
use crate::crypto::{
    contraption_ciphertext, contraption_plaintext, decrypt_contraption, decrypt_progress,
    encrypt_contraption, encrypt_progress, progress_ciphertext, progress_plaintext,
};
use crate::errors::{outcome, Error, ErrorView};
use crate::mode::CryptoMode;
use vstd::prelude::*;

verus! {

/// What `process_data` gives for a category, a direction and input bytes.
pub open spec fn processed(category: Categories, mode: CryptoMode, data: Seq<u8>) -> Result<
    Seq<u8>,
    ErrorView,
> {
    match (category, mode) {
        (Categories::Progress, CryptoMode::Encrypt) => Ok(progress_ciphertext(data)),
        (Categories::Progress, CryptoMode::Decrypt) => progress_plaintext(data),
        (Categories::Contraption, CryptoMode::Encrypt) => Ok(contraption_ciphertext(data)),
        (Categories::Contraption, CryptoMode::Decrypt) => contraption_plaintext(data),
    }
}

/// Encrypts or decrypts `data` as a file of `category`. Encryption never
/// fails; decrypting what encryption produced under the same category gives
/// the original bytes back.
pub fn process_data(category: &Categories, mode: CryptoMode, data: &[u8]) -> (r: Result<
    Vec<u8>,
    Error,
>)
    ensures
        outcome(r) == processed(*category, mode, data@),
        mode == CryptoMode::Encrypt ==> r is Ok,
        forall|plain: Seq<u8>|
            mode == CryptoMode::Decrypt && #[trigger] processed(*category, CryptoMode::Encrypt, plain)
                == Ok::<Seq<u8>, ErrorView>(data@) ==> outcome(r) == Ok::<Seq<u8>, ErrorView>(
                plain,
            ),
{
    match (category, mode) {
        (Categories::Progress, CryptoMode::Encrypt) => Ok(encrypt_progress(data)),
        (Categories::Progress, CryptoMode::Decrypt) => decrypt_progress(data),
        (Categories::Contraption, CryptoMode::Encrypt) => Ok(encrypt_contraption(data)),
        (Categories::Contraption, CryptoMode::Decrypt) => decrypt_contraption(data),
    }
}

/// Encryption is deterministic: the same bytes encrypted under the same
/// category give byte-identical output, with no randomness beyond the fixed
/// key material.
pub proof fn lemma_encryption_deterministic(category: Categories, first: Seq<u8>, second: Seq<u8>)
    requires
        first == second,
    ensures
        processed(category, CryptoMode::Encrypt, first) == processed(
            category,
            CryptoMode::Encrypt,
            second,
        ),
{
}

} // verus!

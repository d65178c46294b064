use vstd::prelude::*;

verus! {

/// Why a decryption failed.
#[derive(Debug, PartialEq, Eq)]
pub enum Error {
    /// The data is shorter than the 20-byte SHA-1 header; holds its length.
    Sha1HashLength(usize),
    /// The SHA-1 header does not match the data after it; holds the stored
    /// header and the digest computed over the data.
    Sha1Checksum(Vec<u8>, Vec<u8>),
    /// The decrypted data is not a whole number of blocks or its PKCS#7
    /// padding is malformed.
    CbcPadding,
}

/// The mathematical model of an [`Error`].
pub enum ErrorView {
    Sha1HashLength(usize),
    Sha1Checksum(Seq<u8>, Seq<u8>),
    CbcPadding,
}

impl View for Error {
    type V = ErrorView;

    open spec fn view(&self) -> ErrorView {
        match self {
            Error::Sha1HashLength(n) => ErrorView::Sha1HashLength(*n),
            Error::Sha1Checksum(expected, got) => ErrorView::Sha1Checksum(expected@, got@),
            Error::CbcPadding => ErrorView::CbcPadding,
        }
    }
}

/// The model of the result of a transformation: the bytes, or the error.
pub open spec fn outcome(r: Result<Vec<u8>, Error>) -> Result<Seq<u8>, ErrorView> {
    match r {
        Ok(v) => Ok(v@),
        Err(e) => Err(e@),
    }
}

} // verus!

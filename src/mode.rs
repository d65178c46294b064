use vstd::prelude::*;

verus! {

/// Which half of the transformation runs.
#[derive(Debug, Clone, Copy, PartialEq, Eq, Structural)]
pub enum CryptoMode {
    Encrypt,
    Decrypt,
}

} // verus!

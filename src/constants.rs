use vstd::prelude::*;

verus! {

/// Number of iterations of the key derivation.
pub const PBKDF2_ITERATIONS: u32 = 1000;

/// Length of the SHA-1 checksum header in bytes.
pub const SHA1_HEADER_LEN: usize = 20;

/// Length of the AES-256 key in bytes.
pub const KEY_LEN: usize = 32;

/// Length of the initialization vector in bytes.
pub const IV_LEN: usize = 16;

/// Total number of bytes taken from the key derivation (key, then IV).
pub const DERIVED_LEN: usize = KEY_LEN + IV_LEN;

/// The salt shared by both categories.
pub open spec fn salt_spec() -> Seq<u8> {
    seq![0x52u8, 0xA6, 0x42, 0x57, 0x92, 0x33, 0xB3, 0x6C, 0xF2, 0x6E, 0x62, 0xED, 0x7C]
}

/// The passphrase of `Progress.dat` files (`56SA%FG42Dv5#4aG67f2`).
pub open spec fn progress_pwd_spec() -> Seq<u8> {
    seq![
        0x35u8, 0x36, 0x53, 0x41, 0x25, 0x46, 0x47, 0x34, 0x32, 0x44,
        0x76, 0x35, 0x23, 0x34, 0x61, 0x47, 0x36, 0x37, 0x66, 0x32,
    ]
}

/// The passphrase of `.contraption` files (`3b91A049Ca7HvSjhxT35`).
pub open spec fn contraption_pwd_spec() -> Seq<u8> {
    seq![
        0x33u8, 0x62, 0x39, 0x31, 0x41, 0x30, 0x34, 0x39, 0x43, 0x61,
        0x37, 0x48, 0x76, 0x53, 0x6A, 0x68, 0x78, 0x54, 0x33, 0x35,
    ]
}

pub fn salt() -> (r: Vec<u8>)
    ensures
        r@ == salt_spec(),
{
    let r = vec![0x52u8, 0xA6, 0x42, 0x57, 0x92, 0x33, 0xB3, 0x6C, 0xF2, 0x6E, 0x62, 0xED, 0x7C];
    assert(r@ =~= salt_spec());
    r
}

pub fn progress_pwd() -> (r: Vec<u8>)
    ensures
        r@ == progress_pwd_spec(),
{
    let r = vec![
        0x35u8, 0x36, 0x53, 0x41, 0x25, 0x46, 0x47, 0x34, 0x32, 0x44,
        0x76, 0x35, 0x23, 0x34, 0x61, 0x47, 0x36, 0x37, 0x66, 0x32,
    ];
    assert(r@ =~= progress_pwd_spec());
    r
}

pub fn contraption_pwd() -> (r: Vec<u8>)
    ensures
        r@ == contraption_pwd_spec(),
{
    let r = vec![
        0x33u8, 0x62, 0x39, 0x31, 0x41, 0x30, 0x34, 0x39, 0x43, 0x61,
        0x37, 0x48, 0x76, 0x53, 0x6A, 0x68, 0x78, 0x54, 0x33, 0x35,
    ];
    assert(r@ =~= contraption_pwd_spec());
    r
}

} // verus!

use badpiggies_cryptor::crypto::{
    decrypt_contraption, decrypt_progress, encrypt_contraption, encrypt_progress, frame, unframe,
};
use badpiggies_cryptor::errors::Error;
use sha1::{Digest, Sha1};

const VEHICLE_CIPHERTEXT: [u8; 32] = [
    0x8c, 0x19, 0x59, 0x2f, 0x0c, 0x30, 0xfd, 0x31, 0x6d, 0x10, 0xf8, 0xf6, 0xf0, 0x22, 0xb9, 0x32,
    0x1f, 0x05, 0x4a, 0xb8, 0xa3, 0xc4, 0xa4, 0xe4, 0x39, 0x38, 0x7f, 0x3e, 0x13, 0x38, 0x52, 0xb8,
];

const EMPTY_CONTRAPTION: [u8; 16] = [
    0x8e, 0x84, 0x1b, 0x4f, 0xc9, 0x4c, 0x06, 0x5f, 0x8a, 0xf7, 0x46, 0xc3, 0x42, 0x16, 0xb9, 0x8f,
];

const SAVE_PROGRESS: [u8; 52] = [
    0x1c, 0xb7, 0x4a, 0x39, 0x9c, 0xbc, 0x21, 0x6f, 0x0c, 0xa7, 0x0a, 0x11, 0x11, 0xc2, 0x0a, 0xbc,
    0x96, 0xef, 0x52, 0xb1, 0x53, 0xcb, 0xe7, 0x26, 0x95, 0x5f, 0x25, 0x59, 0x23, 0x1e, 0x30, 0xc1,
    0xcb, 0xb6, 0x3b, 0x6a, 0xf4, 0x49, 0xd4, 0x46, 0x13, 0xd4, 0x13, 0xd5, 0x2f, 0xc4, 0xc3, 0x93,
    0xc3, 0x79, 0xf2, 0xfc,
];

const EMPTY_PROGRESS: [u8; 36] = [
    0x3b, 0xf0, 0x19, 0x33, 0x0f, 0x61, 0x9b, 0xf3, 0xd0, 0x22, 0xcd, 0xd4, 0x6c, 0x48, 0x28, 0x23,
    0xd7, 0xe9, 0xe6, 0x9b, 0x3f, 0xe1, 0xb8, 0x4f, 0x98, 0xd5, 0x42, 0x53, 0x49, 0x27, 0x29, 0x9c,
    0x79, 0xb7, 0xba, 0xe7,
];

fn sha1_of(data: &[u8]) -> Vec<u8> {
    Sha1::new_with_prefix(data).finalize().to_vec()
}

#[test]
fn test_contraption_cycle() {
    let original = b"Test Vehicle Blueprint";
    let encrypted = encrypt_contraption(original);
    let decrypted = decrypt_contraption(&encrypted).expect("Decryption failed");
    assert_eq!(original, &decrypted[..]);
}

#[test]
fn test_progress_cycle() {
    let original = b"Test Game Save Progress";
    let encrypted = encrypt_progress(original);
    let decrypted = decrypt_progress(&encrypted).expect("Decryption failed");
    assert_eq!(original, &decrypted[..]);
}

#[test]
fn contraption_ciphertext_is_known_vector() {
    assert_eq!(encrypt_contraption(b"Test Vehicle Blueprint"), VEHICLE_CIPHERTEXT.to_vec());
}

#[test]
fn contraption_known_vector_decrypts() {
    let decrypted = decrypt_contraption(&VEHICLE_CIPHERTEXT).unwrap();
    assert_eq!(decrypted, b"Test Vehicle Blueprint".to_vec());
}

#[test]
fn contraption_empty_input_is_one_block() {
    let encrypted = encrypt_contraption(&[]);
    assert_eq!(encrypted, EMPTY_CONTRAPTION.to_vec());
    assert_eq!(decrypt_contraption(&encrypted).unwrap(), Vec::<u8>::new());
}

#[test]
fn progress_ciphertext_is_known_vector() {
    assert_eq!(encrypt_progress(b"Test Game Save Progress"), SAVE_PROGRESS.to_vec());
}

#[test]
fn progress_known_vector_decrypts() {
    let decrypted = decrypt_progress(&SAVE_PROGRESS).unwrap();
    assert_eq!(decrypted, b"Test Game Save Progress".to_vec());
}

#[test]
fn progress_empty_input_round_trips() {
    let encrypted = encrypt_progress(&[]);
    assert_eq!(encrypted, EMPTY_PROGRESS.to_vec());
    assert_eq!(decrypt_progress(&encrypted).unwrap(), Vec::<u8>::new());
}

#[test]
fn progress_header_is_digest_of_ciphertext() {
    let encrypted = encrypt_progress(b"Test Game Save Progress");
    assert_eq!(encrypted.len(), 20 + 32);
    assert_eq!(&encrypted[..20], &sha1_of(&encrypted[20..])[..]);
}

#[test]
fn ciphertext_length_rounds_up_to_next_block() {
    for n in [0usize, 1, 15, 16, 17, 31, 32, 100] {
        let data = vec![0x41u8; n];
        let expected = (n / 16 + 1) * 16;
        assert_eq!(encrypt_contraption(&data).len(), expected);
        assert_eq!(encrypt_progress(&data).len(), 20 + expected);
    }
}

#[test]
fn round_trips_on_many_lengths() {
    for n in 0usize..70 {
        let data: Vec<u8> = (0..n).map(|i| (i * 37 + 11) as u8).collect();
        assert_eq!(decrypt_contraption(&encrypt_contraption(&data)).unwrap(), data);
        assert_eq!(decrypt_progress(&encrypt_progress(&data)).unwrap(), data);
    }
}

#[test]
fn encryption_is_deterministic() {
    let data = b"same bytes, same file";
    assert_eq!(encrypt_contraption(data), encrypt_contraption(data));
    assert_eq!(encrypt_progress(data), encrypt_progress(data));
}

#[test]
fn encryption_changes_the_bytes() {
    let data = [0u8; 32];
    let encrypted = encrypt_contraption(&data);
    assert_ne!(&encrypted[..32], &data[..]);
}

#[test]
fn progress_bit_flip_is_a_checksum_mismatch() {
    let encrypted = encrypt_progress(b"Test Game Save Progress");
    for index in 20..encrypted.len() {
        for bit in 0..8u8 {
            let mut tampered = encrypted.clone();
            tampered[index] ^= 1 << bit;
            match decrypt_progress(&tampered) {
                Err(Error::Sha1Checksum(expected, got)) => {
                    assert_eq!(expected, encrypted[..20].to_vec());
                    assert_eq!(got, sha1_of(&tampered[20..]));
                }
                other => panic!("unexpected result {:?}", other),
            }
        }
    }
}

#[test]
fn progress_short_input_is_rejected() {
    for n in 0usize..20 {
        let data = vec![0xAAu8; n];
        assert_eq!(decrypt_progress(&data), Err(Error::Sha1HashLength(n)));
    }
}

#[test]
fn progress_header_alone_fails_padding() {
    let header = sha1_of(&[]);
    assert_eq!(decrypt_progress(&header), Err(Error::CbcPadding));
}

#[test]
fn contraption_ciphertext_fails_as_progress() {
    let body = encrypt_contraption(b"Test Vehicle Blueprint");
    let mut framed = sha1_of(&body);
    framed.extend_from_slice(&body);
    assert_eq!(decrypt_progress(&framed), Err(Error::CbcPadding));
}

#[test]
fn progress_ciphertext_fails_as_contraption() {
    let encrypted = encrypt_progress(b"Test Game Save Progress");
    assert_eq!(decrypt_contraption(&encrypted[20..]), Err(Error::CbcPadding));
}

#[test]
fn contraption_bad_length_fails_padding() {
    assert_eq!(decrypt_contraption(&[]), Err(Error::CbcPadding));
    assert_eq!(decrypt_contraption(&VEHICLE_CIPHERTEXT[..31]), Err(Error::CbcPadding));
}

#[test]
fn frame_puts_digest_in_front() {
    let body = [7u8, 8, 9];
    let framed = frame(&body);
    assert_eq!(framed.len(), 23);
    assert_eq!(&framed[..20], &sha1_of(&body)[..]);
    assert_eq!(&framed[20..], &body[..]);
}

#[test]
fn unframe_returns_the_body() {
    let body = b"any ciphertext at all".to_vec();
    assert_eq!(unframe(&frame(&body)), Ok(body));
    assert_eq!(unframe(&frame(&[])), Ok(Vec::new()));
}

#[test]
fn unframe_reports_each_failure() {
    assert_eq!(unframe(&[0u8; 19]), Err(Error::Sha1HashLength(19)));
    let mut framed = frame(b"body");
    framed[0] ^= 0x80;
    assert_eq!(
        unframe(&framed),
        Err(Error::Sha1Checksum(framed[..20].to_vec(), sha1_of(b"body")))
    );
}

#[test]
fn decrypted_output_re_encrypts_to_input() {
    let plain = decrypt_contraption(&VEHICLE_CIPHERTEXT).unwrap();
    assert_eq!(encrypt_contraption(&plain), VEHICLE_CIPHERTEXT.to_vec());
    let plain = decrypt_progress(&SAVE_PROGRESS).unwrap();
    assert_eq!(encrypt_progress(&plain), SAVE_PROGRESS.to_vec());
}

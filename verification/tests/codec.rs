use kofl::cipher::{fresh_nonce, CipherEngine, NONCE_LEN};
use kofl::errors::ErrorExecution;
use kofl::hexcode::{decode, encode};
use kofl::text::{bytes_of, text_of};

const NIST_KEY: &str = "603deb1015ca71be2b73aef0857d77811f352c073b6108d72d9810a30914dff4";
const NIST_COUNTER: &str = "f0f1f2f3f4f5f6f7f8f9fafbfcfdfeff";
const NIST_PLAIN: &str = "6bc1bee22e409f96e93d7e117393172aae2d8a571e03ac9c9eb76fac45af8e51";
const NIST_CIPHER: &str = "601ec313775789a5b7a7f504bbf3d228f443e3ca4d62b59aca84e990cacaf5c5";

#[test]
fn hex_encode_writes_lowercase_pairs() {
    assert_eq!(encode(b"Hello world!"), "48656c6c6f20776f726c6421");
    assert_eq!(encode(&[1, 2, 3, 15, 16]), "0102030f10");
    assert_eq!(encode(&[0x00, 0xff, 0xa5]), "00ffa5");
    assert_eq!(encode(&[]), "");
}

#[test]
fn hex_decode_reads_both_cases() {
    assert_eq!(decode("48656c6c6f20776f726c6421").unwrap(), b"Hello world!".to_vec());
    assert_eq!(decode("F9B4CA").unwrap(), vec![0xf9, 0xb4, 0xca]);
    assert_eq!(decode("f9B4Ca").unwrap(), vec![0xf9, 0xb4, 0xca]);
    assert_eq!(decode("").unwrap(), Vec::<u8>::new());
}

#[test]
fn hex_decode_rejects_odd_length_and_foreign_characters() {
    assert!(matches!(decode("123"), Err(ErrorExecution::DecodeFailure)));
    assert!(matches!(decode("foo"), Err(ErrorExecution::DecodeFailure)));
    assert!(matches!(decode("0g"), Err(ErrorExecution::DecodeFailure)));
    assert!(matches!(decode("é"), Err(ErrorExecution::DecodeFailure)));
    assert!(matches!(decode(" 0"), Err(ErrorExecution::DecodeFailure)));
}

#[test]
fn hex_decode_inverts_encode() {
    let bytes: Vec<u8> = (0..=255).collect();
    let text = encode(&bytes);
    assert_eq!(text.len(), 512);
    assert_eq!(decode(&text).unwrap(), bytes);
}

#[test]
fn text_passes_through_its_bytes() {
    assert_eq!(bytes_of("hunter2"), b"hunter2".to_vec());
    assert_eq!(bytes_of("é"), vec![0xc3, 0xa9]);
    assert_eq!(text_of(vec![0xc3, 0xa9]), Some("é".to_string()));
    assert_eq!(text_of(bytes_of("pässwörd ✓")), Some("pässwörd ✓".to_string()));
}

#[test]
fn text_of_rejects_invalid_utf8() {
    assert_eq!(text_of(vec![0xff, 0xfe]), None);
    assert_eq!(text_of(vec![0xc3]), None);
}

#[test]
fn encrypt_with_nonce_matches_the_standard_vector() {
    let key = decode(NIST_KEY).unwrap();
    let counter = decode(NIST_COUNTER).unwrap();
    let plain = decode(NIST_PLAIN).unwrap();
    let sealed = CipherEngine::encrypt_with_nonce(&plain, &key, &counter).unwrap();
    assert_eq!(encode(&sealed), format!("{}{}", NIST_COUNTER, NIST_CIPHER));
}

#[test]
fn decrypt_matches_the_standard_vector() {
    let key = decode(NIST_KEY).unwrap();
    let sealed = decode(&format!("{}{}", NIST_COUNTER, NIST_CIPHER)).unwrap();
    let plain = CipherEngine::decrypt(&sealed, &key).unwrap();
    assert_eq!(encode(&plain), NIST_PLAIN);
}

#[test]
fn encrypt_with_nonce_crosses_a_block_boundary() {
    let key =
        decode("8102277bc38b0a194ce53f61678f9e5df6e2f1e2ac77ce0731d286aeb8d10389").unwrap();
    let nonce: Vec<u8> = (0..16).collect();
    let sealed =
        CipherEngine::encrypt_with_nonce(b"seventeen  bytes!", &key, &nonce).unwrap();
    assert_eq!(
        encode(&sealed),
        "000102030405060708090a0b0c0d0e0fcac2eb72e4d05a9d07c807f34be269dc66"
    );
}

#[test]
fn decrypt_inverts_encrypt() {
    let key = decode(NIST_KEY).unwrap();
    for plain in [&b""[..], &b"x"[..], &b"hunter2"[..], &[0u8; 100][..]] {
        let sealed = CipherEngine::encrypt(plain, &key).unwrap();
        assert_eq!(sealed.len(), NONCE_LEN + plain.len());
        assert_eq!(CipherEngine::decrypt(&sealed, &key).unwrap(), plain.to_vec());
    }
}

#[test]
fn encrypt_changes_the_plaintext() {
    let key = decode(NIST_KEY).unwrap();
    let plain = [0x55u8; 64];
    let sealed = CipherEngine::encrypt(&plain, &key).unwrap();
    assert_ne!(&sealed[NONCE_LEN..], &plain[..]);
}

#[test]
fn encrypt_draws_a_new_nonce_each_time() {
    let key = decode(NIST_KEY).unwrap();
    let first = CipherEngine::encrypt(b"hunter2", &key).unwrap();
    let second = CipherEngine::encrypt(b"hunter2", &key).unwrap();
    assert_ne!(first[..NONCE_LEN], second[..NONCE_LEN]);
    assert_ne!(first, second);
}

#[test]
fn fresh_nonce_has_sixteen_bytes() {
    assert_eq!(fresh_nonce().len(), 16);
    assert_ne!(fresh_nonce(), fresh_nonce());
}

#[test]
fn different_keys_give_different_ciphertexts() {
    let first_key = decode(NIST_KEY).unwrap();
    let mut second_key = first_key.clone();
    second_key[31] ^= 1;
    let nonce = [0u8; 16];
    let plain = b"the same plaintext under two keys";
    let first = CipherEngine::encrypt_with_nonce(plain, &first_key, &nonce).unwrap();
    let second = CipherEngine::encrypt_with_nonce(plain, &second_key, &nonce).unwrap();
    assert_ne!(first, second);
}

#[test]
fn decrypt_under_another_key_does_not_give_the_plaintext() {
    let key = decode(NIST_KEY).unwrap();
    let mut other = key.clone();
    other[0] ^= 0x80;
    let sealed = CipherEngine::encrypt(b"hunter2 and more", &key).unwrap();
    assert_ne!(CipherEngine::decrypt(&sealed, &other).unwrap(), b"hunter2 and more".to_vec());
}

#[test]
fn key_of_wrong_length_is_a_decode_failure() {
    let nonce = [0u8; 16];
    assert!(matches!(
        CipherEngine::encrypt(b"x", &[0u8; 31]),
        Err(ErrorExecution::DecodeFailure)
    ));
    assert!(matches!(
        CipherEngine::encrypt(b"x", &[0u8; 33]),
        Err(ErrorExecution::DecodeFailure)
    ));
    assert!(matches!(CipherEngine::encrypt(b"x", &[]), Err(ErrorExecution::DecodeFailure)));
    assert!(matches!(
        CipherEngine::encrypt_with_nonce(b"x", &[0u8; 16], &nonce),
        Err(ErrorExecution::DecodeFailure)
    ));
    assert!(matches!(
        CipherEngine::decrypt(&[0u8; 20], &[0u8; 16]),
        Err(ErrorExecution::DecodeFailure)
    ));
    // The key is looked at before anything else.
    assert!(matches!(
        CipherEngine::encrypt_with_nonce(b"x", &[0u8; 16], &[0u8; 3]),
        Err(ErrorExecution::DecodeFailure)
    ));
}

#[test]
fn nonce_of_wrong_length_is_a_cipher_failure() {
    let key = [7u8; 32];
    assert!(matches!(
        CipherEngine::encrypt_with_nonce(b"x", &key, &[0u8; 15]),
        Err(ErrorExecution::CipherFailure)
    ));
    assert!(matches!(
        CipherEngine::encrypt_with_nonce(b"x", &key, &[0u8; 17]),
        Err(ErrorExecution::CipherFailure)
    ));
}

#[test]
fn ciphertext_without_a_nonce_is_a_cipher_failure() {
    let key = [7u8; 32];
    assert!(matches!(CipherEngine::decrypt(&[], &key), Err(ErrorExecution::CipherFailure)));
    assert!(matches!(
        CipherEngine::decrypt(&[0u8; 15], &key),
        Err(ErrorExecution::CipherFailure)
    ));
    assert_eq!(CipherEngine::decrypt(&[0u8; 16], &key).unwrap(), Vec::<u8>::new());
}

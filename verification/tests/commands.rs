use aes::cipher::generic_array::GenericArray;
use aes::cipher::{BlockEncrypt, KeyInit};
use aes::Aes128;
use base64::engine::general_purpose::STANDARD;
use base64::Engine;

use aes_ecb_codec::commands::{aes_decrypt, aes_encrypt, parse_key};
use aes_ecb_codec::errors::CodecError;

const KEY16: &str = "0123456789abcdef";
const KEY24: &str = "0123456789abcdef01234567";
const KEY32: &str = "0123456789abcdef0123456789abcdef";

#[test]
fn hello_scenario_default_formats() {
    let ct = aes_encrypt("hello", KEY16, None, None).unwrap();
    assert_eq!(ct.len(), 24);
    let raw = STANDARD.decode(&ct).unwrap();
    assert_eq!(raw.len(), 16);
    let pt = aes_decrypt(&ct, KEY16, None, None).unwrap();
    assert_eq!(pt, "hello");
}

#[test]
fn encrypt_matches_the_cipher_directly() {
    let mut block = [11u8; 16];
    block[..5].copy_from_slice(b"hello");
    let cipher = Aes128::new(GenericArray::from_slice(KEY16.as_bytes()));
    let mut ga = GenericArray::clone_from_slice(&block);
    cipher.encrypt_block(&mut ga);
    let expected = STANDARD.encode(ga.as_slice());
    assert_eq!(aes_encrypt("hello", KEY16, None, None).unwrap(), expected);
}

#[test]
fn longer_keys_match_their_cipher_directly() {
    let mut block = [11u8; 16];
    block[..5].copy_from_slice(b"hello");
    let c192 = aes::Aes192::new(GenericArray::from_slice(KEY24.as_bytes()));
    let mut ga = GenericArray::clone_from_slice(&block);
    c192.encrypt_block(&mut ga);
    assert_eq!(aes_encrypt("hello", KEY24, None, None).unwrap(), STANDARD.encode(ga.as_slice()));
    let c256 = aes::Aes256::new(GenericArray::from_slice(KEY32.as_bytes()));
    let mut ga = GenericArray::clone_from_slice(&block);
    c256.encrypt_block(&mut ga);
    assert_eq!(aes_encrypt("hello", KEY32, None, None).unwrap(), STANDARD.encode(ga.as_slice()));
}

#[test]
fn round_trip_all_key_lengths_and_formats() {
    let plaintexts = ["", "hello", "exactly 16 bytes", "a longer message spanning several blocks, with accents: déjà vu ✓"];
    let keys = [KEY16, KEY24, KEY32];
    let payload_formats = [None, Some("base64"), Some("hex")];
    for pt in plaintexts {
        for key in keys {
            for fmt in payload_formats {
                let ct = aes_encrypt(pt, key, None, fmt).unwrap();
                assert_eq!(aes_decrypt(&ct, key, None, fmt).unwrap(), pt);

                let key_b64 = STANDARD.encode(key.as_bytes());
                let ct2 = aes_encrypt(pt, &key_b64, Some("base64"), fmt).unwrap();
                assert_eq!(ct2, ct);
                assert_eq!(aes_decrypt(&ct2, &key_b64, Some("base64"), fmt).unwrap(), pt);
            }
        }
    }
}

#[test]
fn invalid_key_length_rejected_on_encrypt() {
    let e = aes_encrypt("hello", "short key", None, None).unwrap_err();
    assert_eq!(e, CodecError::InvalidKeyLength);
    let e = aes_encrypt("hello", "0123456789abcdefg", None, None).unwrap_err();
    assert_eq!(e, CodecError::InvalidKeyLength);
}

#[test]
fn invalid_key_length_rejected_on_decrypt() {
    let ct = aes_encrypt("hello", KEY16, None, None).unwrap();
    let e = aes_decrypt(&ct, "short key", None, None).unwrap_err();
    assert_eq!(e, CodecError::InvalidKeyLength);
}

#[test]
fn misaligned_ciphertext_rejected() {
    let e = aes_decrypt("aabb", KEY16, None, Some("hex")).unwrap_err();
    assert_eq!(e, CodecError::InvalidCiphertextLength);
    let two_bytes = STANDARD.encode([1u8, 2]);
    let e = aes_decrypt(&two_bytes, KEY16, None, None).unwrap_err();
    assert_eq!(e, CodecError::InvalidCiphertextLength);
}

#[test]
fn misaligned_ciphertext_reported_before_key_length() {
    let e = aes_decrypt("aabb", "short key", None, Some("hex")).unwrap_err();
    assert_eq!(e, CodecError::InvalidCiphertextLength);
}

#[test]
fn lenient_key_decoding_strict_payload_decoding() {
    // 22 Base64 digits without the canonical "==" padding.
    let unpadded = "QUJDREVGR0hJSktMTU5PUA";
    let ct = aes_encrypt("hello", unpadded, Some("base64"), None).unwrap();
    // The same key, canonically padded, resolves to the same 16 bytes.
    let padded = "QUJDREVGR0hJSktMTU5PUA==";
    assert_eq!(aes_decrypt(&ct, padded, Some("base64"), None).unwrap(), "hello");
    assert_eq!(aes_decrypt(&ct, "ABCDEFGHIJKLMNOP", None, None).unwrap(), "hello");
    // As payload text, the unpadded string is rejected by the strict decoder.
    let e = aes_decrypt(unpadded, KEY16, None, None).unwrap_err();
    assert_eq!(e, CodecError::PayloadDecodeError);
}

#[test]
fn malformed_key_base64_rejected() {
    let e = aes_encrypt("hello", "!!!not base64!!!", Some("base64"), None).unwrap_err();
    assert_eq!(e, CodecError::KeyDecodeError);
    let ct = aes_encrypt("hello", KEY16, None, None).unwrap();
    let e = aes_decrypt(&ct, "!!!not base64!!!", Some("base64"), None).unwrap_err();
    assert_eq!(e, CodecError::KeyDecodeError);
}

#[test]
fn malformed_payload_rejected() {
    let e = aes_decrypt("zz not hex", KEY16, None, Some("hex")).unwrap_err();
    assert_eq!(e, CodecError::PayloadDecodeError);
    let e = aes_decrypt("@@@@", KEY16, None, Some("base64")).unwrap_err();
    assert_eq!(e, CodecError::PayloadDecodeError);
}

#[test]
fn hex_and_base64_outputs_carry_the_same_bytes() {
    let from_hex = hex::decode(aes_encrypt("cross format", KEY16, None, Some("hex")).unwrap()).unwrap();
    let from_b64 = STANDARD.decode(aes_encrypt("cross format", KEY16, None, Some("base64")).unwrap()).unwrap();
    assert_eq!(from_hex, from_b64);
}

#[test]
fn hex_output_is_lowercase_pairs() {
    let ct = aes_encrypt("hello", KEY16, None, Some("hex")).unwrap();
    assert_eq!(ct.len(), 32);
    assert!(ct.bytes().all(|b| b.is_ascii_hexdigit() && !b.is_ascii_uppercase()));
    let expected = hex::encode(STANDARD.decode(aes_encrypt("hello", KEY16, None, None).unwrap()).unwrap());
    assert_eq!(ct, expected);
}

#[test]
fn uppercase_hex_input_accepted() {
    let ct = aes_encrypt("hello", KEY16, None, Some("hex")).unwrap().to_uppercase();
    assert_eq!(aes_decrypt(&ct, KEY16, None, Some("hex")).unwrap(), "hello");
}

#[test]
fn unknown_format_tags_mean_the_defaults() {
    let ct = aes_encrypt("hello", KEY16, Some("raw"), Some("b64-ish")).unwrap();
    assert_eq!(ct, aes_encrypt("hello", KEY16, None, None).unwrap());
    assert_eq!(aes_decrypt(&ct, KEY16, Some("raw"), Some("other")).unwrap(), "hello");
}

#[test]
fn tampered_ciphertext_never_decrypts_silently() {
    let ct = aes_encrypt("an ordinary secret message", KEY16, None, None).unwrap();
    let mut raw = STANDARD.decode(&ct).unwrap();
    let last = raw.len() - 1;
    raw[last] ^= 1;
    let tampered = STANDARD.encode(&raw);
    let e = aes_decrypt(&tampered, KEY16, None, None).unwrap_err();
    assert!(e == CodecError::PaddingError || e == CodecError::Utf8DecodeError);
}

#[test]
fn non_utf8_plaintext_is_rejected_on_decrypt() {
    // A block of 0xFF bytes with one byte of valid padding decrypts to
    // fifteen 0xFF bytes, which are not UTF-8.
    let mut block = [0xFFu8; 16];
    block[15] = 1;
    let cipher = Aes128::new(GenericArray::from_slice(KEY16.as_bytes()));
    let mut ga = GenericArray::clone_from_slice(&block);
    cipher.encrypt_block(&mut ga);
    let ct = STANDARD.encode(ga.as_slice());
    let e = aes_decrypt(&ct, KEY16, None, None).unwrap_err();
    assert_eq!(e, CodecError::Utf8DecodeError);
}

#[test]
fn parse_key_raw_and_base64() {
    assert_eq!(parse_key(KEY16, None).unwrap(), KEY16.as_bytes());
    assert_eq!(parse_key(KEY16, Some("raw")).unwrap(), KEY16.as_bytes());
    assert_eq!(parse_key(KEY16, Some("anything")).unwrap(), KEY16.as_bytes());
    let encoded = STANDARD.encode(KEY16.as_bytes());
    assert_eq!(parse_key(&encoded, Some("base64")).unwrap(), KEY16.as_bytes());
    assert_eq!(parse_key("not/base64!", Some("base64")).unwrap_err(), CodecError::KeyDecodeError);
}

#[test]
fn error_messages_name_the_stage() {
    assert!(CodecError::InvalidKeyLength.message().contains("key length"));
    assert!(CodecError::KeyDecodeError.message().contains("key"));
    assert!(CodecError::InvalidCiphertextLength.message().contains("multiple of 16"));
    assert!(CodecError::PayloadDecodeError.message().contains("payload"));
    assert!(CodecError::PaddingError.message().contains("padding"));
    assert!(CodecError::Utf8DecodeError.message().contains("UTF-8"));
}

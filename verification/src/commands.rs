//! The command surface: key/format resolution and the encrypt and decrypt
//! pipelines. Keys arrive raw or Base64 (decoded leniently); payload text is
//! Base64 (decoded strictly) or hexadecimal, selected by an explicit tag
//! defaulting to Base64.

use vstd::prelude::*;
use vstd::string::*;
use vstd::utf8::{
    decode_utf8, encode_utf8, encode_utf8_decode_utf8, encode_utf8_valid_utf8, valid_utf8,
};

use crate::cipher::{
    aes_ecb_decrypt_raw, aes_ecb_encrypt_raw, ecb_decrypt, ecb_encrypt, valid_key_len,
};
use crate::encoding::{
    b64_decode_lenient, b64_decode_of, b64_decode_strict, b64_encode, b64_lenient_of, b64_of,
    hex_decode, hex_encode, lemma_hex_decode_encode, spec_hex_decode, spec_hex_encode,
};
use crate::errors::CodecError;
use crate::padding::{lemma_unpad_pad, spec_pad, spec_unpad};

verus! {

/// The character sequence of an optional string tag.
pub open spec fn opt_str_view(o: Option<&str>) -> Option<Seq<char>> {
    match o {
        Some(s) => Some(s@),
        None => None,
    }
}

/// Whether a key-format tag selects Base64 key decoding; every other tag,
/// and no tag, means the key text's bytes are used verbatim.
pub open spec fn is_base64_key_format(kf: Option<Seq<char>>) -> bool {
    kf matches Some(f) && f == "base64"@
}

/// Whether a payload-format tag selects hexadecimal; every other tag, and no
/// tag, means Base64.
pub open spec fn is_hex_payload_format(f: Option<Seq<char>>) -> bool {
    f matches Some(s) && s == "hex"@
}

/// The canonical key bytes of a key string under a key-format tag: the
/// string's UTF-8 bytes verbatim, or its lenient Base64 decoding.
pub open spec fn spec_parse_key(key: Seq<char>, kf: Option<Seq<char>>) -> Option<Seq<u8>> {
    if is_base64_key_format(kf) {
        b64_lenient_of(key)
    } else {
        Some(encode_utf8(key))
    }
}

/// The text a byte buffer is rendered as: hexadecimal or Base64.
pub open spec fn spec_encode_text(b: Seq<u8>, hex: bool) -> Seq<char> {
    if hex {
        spec_hex_encode(b)
    } else {
        b64_of(b)
    }
}

/// The bytes a payload text decodes to, strictly: hexadecimal or Base64.
pub open spec fn spec_decode_text(s: Seq<char>, hex: bool) -> Option<Seq<u8>> {
    if hex {
        spec_hex_decode(s)
    } else {
        b64_decode_of(s)
    }
}

/// The whole decrypt pipeline: resolve the key, strictly decode the payload
/// text, ECB-decrypt whole blocks under a valid key, remove the PKCS#7
/// padding, and read the result as UTF-8 text. `None` wherever any stage
/// fails.
pub open spec fn spec_decrypt_text(
    ciphertext: Seq<char>,
    key: Seq<char>,
    key_format: Option<Seq<char>>,
    input_format: Option<Seq<char>>,
) -> Option<Seq<char>> {
    match spec_parse_key(key, key_format) {
        None => None,
        Some(kb) => match spec_decode_text(ciphertext, is_hex_payload_format(input_format)) {
            None => None,
            Some(cb) => if cb.len() % 16 != 0 || !valid_key_len(kb.len()) {
                None
            } else {
                match spec_unpad(ecb_decrypt(kb, cb)) {
                    None => None,
                    Some(pt) => if valid_utf8(pt) {
                        Some(decode_utf8(pt))
                    } else {
                        None
                    },
                }
            },
        },
    }
}

/// Cross-format equivalence: two renderings of the same encryption — one
/// hexadecimal, one Base64 — decode back to the same bytes. `aes_encrypt`
/// ensures of its output exactly the decoding stated here.
pub proof fn lemma_cross_format_equivalence(
    k: Seq<u8>,
    p: Seq<u8>,
    hex_text: Seq<char>,
    b64_text: Seq<char>,
)
    requires
        spec_decode_text(hex_text, true) == Some(ecb_encrypt(k, spec_pad(p, 16))),
        spec_decode_text(b64_text, false) == Some(ecb_encrypt(k, spec_pad(p, 16))),
    ensures
        spec_decode_text(hex_text, true) == spec_decode_text(b64_text, false),
{
}

/// Relies on `str`'s `PartialEq`: two string slices are equal exactly when
/// their character sequences are.
#[verifier::external_body]
fn str_eq(a: &str, b: &str) -> (r: bool)
    ensures
        r == (a@ == b@),
{
    a == b
}

/// Relies on `String::from_utf8`: `Some` exactly when the bytes are valid
/// UTF-8, returning the string whose bytes they are.
#[verifier::external_body]
fn bytes_to_string(v: Vec<u8>) -> (r: Option<String>)
    ensures
        r is Some <==> valid_utf8(v@),
        r matches Some(s) ==> encode_utf8(s@) == v@,
{
    match String::from_utf8(v) {
        Ok(s) => Some(s),
        Err(_) => None,
    }
}

/// Resolves a key string and an optional format tag (`"base64"` selects
/// lenient Base64 decoding; anything else, or no tag, means raw) into
/// canonical key bytes. Fails with `KeyDecodeError` exactly when the lenient
/// Base64 decoding fails; the key's length is not examined here.
pub fn parse_key(key: &str, key_format: Option<&str>) -> (r: Result<Vec<u8>, CodecError>)
    ensures
        r is Ok <==> spec_parse_key(key@, opt_str_view(key_format)) is Some,
        r matches Ok(v) ==> Some(v@) == spec_parse_key(key@, opt_str_view(key_format)),
        r matches Err(e) ==> e == CodecError::KeyDecodeError,
{
    let is_b64 = match key_format {
        Some(f) => str_eq(f, "base64"),
        None => false,
    };
    if is_b64 {
        match b64_decode_lenient(key) {
            Some(v) => Ok(v),
            None => Err(CodecError::KeyDecodeError),
        }
    } else {
        Ok(key.as_bytes_vec())
    }
}

/// Encrypts a plaintext string: resolve the key, take the plaintext's UTF-8
/// bytes, pad with PKCS#7, encrypt block by block in ECB mode, and render
/// the ciphertext as Base64 (the default) or hexadecimal.
///
/// Succeeds exactly when the key resolves to 16, 24 or 32 bytes; fails with
/// `KeyDecodeError` or `InvalidKeyLength` otherwise. On success the output
/// is the encoding of the ECB encryption of the padded plaintext, it decodes
/// strictly back to that ciphertext, and — the round trip — the whole
/// decrypt pipeline on the output with the same key and formats returns the
/// plaintext.
pub fn aes_encrypt(
    plaintext: &str,
    key: &str,
    key_format: Option<&str>,
    output_format: Option<&str>,
) -> (r: Result<String, CodecError>)
    ensures
        ({
            let kb = spec_parse_key(key@, opt_str_view(key_format));
            &&& (r is Ok <==> (kb matches Some(k) && valid_key_len(k.len())))
            &&& (r matches Err(e) ==> {
                &&& (e == CodecError::KeyDecodeError <==> kb is None)
                &&& (e == CodecError::InvalidKeyLength <==> (kb matches Some(k)
                    && !valid_key_len(k.len())))
            })
            &&& (r matches Ok(s) ==> (kb matches Some(k) && {
                let padded = spec_pad(encode_utf8(plaintext@), 16);
                let ct = ecb_encrypt(k, padded);
                let hex = is_hex_payload_format(opt_str_view(output_format));
                &&& s@ == spec_encode_text(ct, hex)
                &&& ct.len() == padded.len()
                &&& spec_decode_text(s@, hex) == Some(ct)
                &&& (hex ==> s@.len() == 2 * padded.len())
                &&& (!hex ==> s@.len() == ((padded.len() + 2) / 3) * 4)
                &&& spec_decrypt_text(
                    s@,
                    key@,
                    opt_str_view(key_format),
                    opt_str_view(output_format),
                ) == Some(plaintext@)
            }))
        }),
{
    let key_bytes = match parse_key(key, key_format) {
        Ok(v) => v,
        Err(e) => return Err(e),
    };
    let pt_bytes = plaintext.as_bytes_vec();
    let encrypted = match aes_ecb_encrypt_raw(pt_bytes.as_slice(), key_bytes.as_slice()) {
        Ok(v) => v,
        Err(e) => return Err(e),
    };
    let use_hex = match output_format {
        Some(f) => str_eq(f, "hex"),
        None => false,
    };
    let out = if use_hex {
        hex_encode(&encrypted)
    } else {
        b64_encode(&encrypted)
    };
    proof {
        lemma_unpad_pad(encode_utf8(plaintext@), 16);
        if use_hex {
            lemma_hex_decode_encode(encrypted@);
        }
        encode_utf8_valid_utf8(plaintext@);
        encode_utf8_decode_utf8(plaintext@);
    }
    Ok(out)
}

/// Decrypts a ciphertext string: resolve the key, strictly decode the text
/// as Base64 (the default) or hexadecimal, decrypt block by block in ECB
/// mode, remove the PKCS#7 padding, and read the bytes as UTF-8 text.
///
/// Succeeds exactly when every stage of the decrypt pipeline does; each
/// stage failure is reported as its own error: `KeyDecodeError`,
/// `PayloadDecodeError`, `InvalidCiphertextLength`, `InvalidKeyLength`,
/// `PaddingError` or `Utf8DecodeError`, in that stage order.
pub fn aes_decrypt(
    ciphertext: &str,
    key: &str,
    key_format: Option<&str>,
    input_format: Option<&str>,
) -> (r: Result<String, CodecError>)
    ensures
        r is Ok <==> spec_decrypt_text(
            ciphertext@,
            key@,
            opt_str_view(key_format),
            opt_str_view(input_format),
        ) is Some,
        r matches Ok(s) ==> Some(s@) == spec_decrypt_text(
            ciphertext@,
            key@,
            opt_str_view(key_format),
            opt_str_view(input_format),
        ),
        r matches Err(e) ==> ({
            let kb = spec_parse_key(key@, opt_str_view(key_format));
            let cb = spec_decode_text(ciphertext@, is_hex_payload_format(opt_str_view(input_format)));
            &&& (e == CodecError::KeyDecodeError <==> kb is None)
            &&& (e == CodecError::PayloadDecodeError <==> (kb is Some && cb is None))
            &&& (e == CodecError::InvalidCiphertextLength <==> ({
                &&& kb is Some
                &&& cb matches Some(c)
                &&& c.len() % 16 != 0
            }))
            &&& (e == CodecError::InvalidKeyLength <==> ({
                &&& kb matches Some(k)
                &&& cb matches Some(c)
                &&& c.len() % 16 == 0
                &&& !valid_key_len(k.len())
            }))
            &&& (e == CodecError::PaddingError <==> ({
                &&& kb matches Some(k)
                &&& cb matches Some(c)
                &&& c.len() % 16 == 0
                &&& valid_key_len(k.len())
                &&& spec_unpad(ecb_decrypt(k, c)) is None
            }))
            &&& (e == CodecError::Utf8DecodeError <==> ({
                &&& kb matches Some(k)
                &&& cb matches Some(c)
                &&& c.len() % 16 == 0
                &&& valid_key_len(k.len())
                &&& spec_unpad(ecb_decrypt(k, c)) matches Some(pt)
                &&& !valid_utf8(pt)
            }))
        }),
{
    let key_bytes = match parse_key(key, key_format) {
        Ok(v) => v,
        Err(e) => return Err(e),
    };
    let use_hex = match input_format {
        Some(f) => str_eq(f, "hex"),
        None => false,
    };
    let encrypted = if use_hex {
        match hex_decode(ciphertext) {
            Some(v) => v,
            None => return Err(CodecError::PayloadDecodeError),
        }
    } else {
        match b64_decode_strict(ciphertext) {
            Some(v) => v,
            None => return Err(CodecError::PayloadDecodeError),
        }
    };
    let decrypted = match aes_ecb_decrypt_raw(encrypted.as_slice(), key_bytes.as_slice()) {
        Ok(v) => v,
        Err(e) => return Err(e),
    };
    match bytes_to_string(decrypted) {
        Some(s) => {
            proof {
                encode_utf8_decode_utf8(s@);
            }
            Ok(s)
        },
        None => Err(CodecError::Utf8DecodeError),
    }
}

} // verus!

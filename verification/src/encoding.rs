//! Textual encodings of byte buffers: hexadecimal, and Base64 in the two
//! variants the codec needs — strict decoding for payload text and lenient
//! decoding for key text (the asymmetry is deliberate: payload text is
//! framework-generated, key text may come from permissive external tooling).

use vstd::prelude::*;
use vstd::arithmetic::div_mod::lemma_fundamental_div_mod;

use base64::engine::general_purpose;
use base64::engine::{DecodePaddingMode, GeneralPurpose, GeneralPurposeConfig};
use base64::{alphabet, Engine};

verus! {

// ---------------------------------------------------------------------------
// Hexadecimal: exactly specified, two digits per byte, high nibble first.
// ---------------------------------------------------------------------------

/// Whether `c` is a hexadecimal digit, in either case.
pub open spec fn is_hex_digit(c: char) -> bool {
    let v = c as u32;
    (48 <= v && v <= 57) || (97 <= v && v <= 102) || (65 <= v && v <= 70)
}

/// The value of a hexadecimal digit, in either case.
pub open spec fn hex_char_val(c: char) -> u8
    recommends
        is_hex_digit(c),
{
    let v = c as u32;
    if 48 <= v && v <= 57 {
        (v - 48) as u8
    } else if 97 <= v && v <= 102 {
        (v - 87) as u8
    } else {
        (v - 55) as u8
    }
}

/// The lowercase hexadecimal digit of a nibble.
pub open spec fn nibble_char(n: u8) -> char
    recommends
        n < 16,
{
    if n < 10 {
        ((48 + n) as u8) as char
    } else {
        ((87 + n) as u8) as char
    }
}

/// The lowercase hexadecimal encoding of a byte sequence.
pub open spec fn spec_hex_encode(b: Seq<u8>) -> Seq<char> {
    Seq::new(b.len() * 2, |i: int|
        if i % 2 == 0 {
            nibble_char(b[i / 2] / 16)
        } else {
            nibble_char(b[i / 2] % 16)
        })
}

/// Hexadecimal decoding: `Some` exactly when the length is even and every
/// character is a hex digit of either case; pairs of digits become bytes,
/// high nibble first.
pub open spec fn spec_hex_decode(s: Seq<char>) -> Option<Seq<u8>> {
    if s.len() % 2 == 0 && (forall|i: int| 0 <= i < s.len() ==> is_hex_digit(s[i])) {
        Some(Seq::new(s.len() / 2, |i: int|
            (hex_char_val(s[2 * i]) * 16 + hex_char_val(s[2 * i + 1])) as u8))
    } else {
        None
    }
}

/// A lowercase hexadecimal digit decodes back to the nibble it encodes.
proof fn lemma_nibble_char_val(n: u8)
    requires
        n < 16,
    ensures
        is_hex_digit(nibble_char(n)),
        hex_char_val(nibble_char(n)) == n,
{
}

/// Hexadecimal decoding inverts hexadecimal encoding.
pub proof fn lemma_hex_decode_encode(b: Seq<u8>)
    ensures
        spec_hex_decode(spec_hex_encode(b)) == Some(b),
{
    let s = spec_hex_encode(b);
    assert forall|i: int| 0 <= i < s.len() implies is_hex_digit(s[i]) by {
        if i % 2 == 0 {
            lemma_nibble_char_val(b[i / 2] / 16);
        } else {
            lemma_nibble_char_val(b[i / 2] % 16);
        }
    }
    let d = spec_hex_decode(s).unwrap();
    assert forall|i: int| 0 <= i < b.len() implies d[i] == b[i] by {
        assert((2 * i) / 2 == i);
        assert((2 * i + 1) / 2 == i);
        lemma_nibble_char_val(b[i] / 16);
        lemma_nibble_char_val(b[i] % 16);
        lemma_fundamental_div_mod(b[i] as int, 16);
    }
    assert(d =~= b);
}

/// Relies on `hex::encode`: two lowercase hexadecimal digits per input byte,
/// high nibble first.
#[verifier::external_body]
pub(crate) fn hex_encode(b: &Vec<u8>) -> (r: String)
    ensures
        r@ == spec_hex_encode(b@),
{
    hex::encode(b)
}

/// Relies on `hex::decode`: `Ok` exactly when the input's length is even and
/// every character is a hexadecimal digit of either case, pairing digits into
/// bytes. It reads the string's bytes; on every input that decodes, those
/// coincide with its characters.
#[verifier::external_body]
pub(crate) fn hex_decode(s: &str) -> (r: Option<Vec<u8>>)
    ensures
        r is Some <==> spec_hex_decode(s@) is Some,
        r matches Some(v) ==> Some(v@) == spec_hex_decode(s@),
{
    hex::decode(s).ok()
}

// ---------------------------------------------------------------------------
// Base64: the encoding and both decodings are named, with the documented
// round-trip between the standard encoder and the strict decoder.
// ---------------------------------------------------------------------------

/// What base64's `STANDARD` engine encodes a byte sequence to.
pub uninterp spec fn b64_of(b: Seq<u8>) -> Seq<char>;

/// What base64's `STANDARD` engine (canonical padding, no trailing bits)
/// decodes a string to, `None` standing for its decode error.
pub uninterp spec fn b64_decode_of(s: Seq<char>) -> Option<Seq<u8>>;

/// What a lenient base64 engine — standard alphabet, indifferent padding,
/// trailing bits allowed — decodes a string to, `None` for its decode error.
pub uninterp spec fn b64_lenient_of(s: Seq<char>) -> Option<Seq<u8>>;

/// Relies on `base64::engine::general_purpose::STANDARD.encode`: the
/// standard alphabet with padding, a function of the input bytes alone; the
/// output takes four characters per three input bytes, rounded up, and the
/// same engine's decode inverts it.
#[verifier::external_body]
pub(crate) fn b64_encode(b: &Vec<u8>) -> (r: String)
    ensures
        r@ == b64_of(b@),
        r@.len() == ((b@.len() + 2) / 3) * 4,
        b64_decode_of(r@) == Some(b@),
{
    general_purpose::STANDARD.encode(b)
}

/// Relies on `base64::engine::general_purpose::STANDARD.decode`: strict
/// decoding, rejecting non-canonical padding and nonzero trailing bits. It
/// reads the string's bytes, which determine and are determined by its
/// characters.
#[verifier::external_body]
pub(crate) fn b64_decode_strict(s: &str) -> (r: Option<Vec<u8>>)
    ensures
        r is Some <==> b64_decode_of(s@) is Some,
        r matches Some(v) ==> Some(v@) == b64_decode_of(s@),
{
    general_purpose::STANDARD.decode(s).ok()
}

/// Relies on `base64::engine::GeneralPurpose::decode` configured with the
/// standard alphabet, `DecodePaddingMode::Indifferent` and trailing bits
/// allowed: lenient decoding, a function of the input alone. It reads the
/// string's bytes, which determine and are determined by its characters.
#[verifier::external_body]
pub(crate) fn b64_decode_lenient(s: &str) -> (r: Option<Vec<u8>>)
    ensures
        r is Some <==> b64_lenient_of(s@) is Some,
        r matches Some(v) ==> Some(v@) == b64_lenient_of(s@),
{
    let engine = GeneralPurpose::new(
        &alphabet::STANDARD,
        GeneralPurposeConfig::new()
            .with_decode_padding_mode(DecodePaddingMode::Indifferent)
            .with_decode_allow_trailing_bits(true),
    );
    engine.decode(s).ok()
}

} // verus!

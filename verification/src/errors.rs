use vstd::prelude::*;

verus! {

/// The failure taxonomy of the codec. Every stage of an encrypt or decrypt
/// pipeline reports one of these values; no stage panics.
#[derive(Clone, Copy, Debug, PartialEq, Eq, Structural)]
pub enum CodecError {
    /// The resolved key is not 16, 24 or 32 bytes long.
    InvalidKeyLength,
    /// The lenient Base64 decoding of the key text failed.
    KeyDecodeError,
    /// The decoded ciphertext is not a whole number of 16-byte blocks.
    InvalidCiphertextLength,
    /// The strict Base64 or hex decoding of the payload text failed.
    PayloadDecodeError,
    /// The padding was empty, out of range, or mismatched on removal.
    PaddingError,
    /// The decrypted bytes are not valid UTF-8 text.
    Utf8DecodeError,
}

/// The message that [`CodecError::message`] returns for each variant.
pub open spec fn spec_message(e: CodecError) -> Seq<char> {
    match e {
        CodecError::InvalidKeyLength => "invalid key length: 16, 24 or 32 bytes are supported"@,
        CodecError::KeyDecodeError => "key Base64 decoding failed"@,
        CodecError::InvalidCiphertextLength => "ciphertext length must be a multiple of 16"@,
        CodecError::PayloadDecodeError => "payload decoding failed"@,
        CodecError::PaddingError => "padding validation failed"@,
        CodecError::Utf8DecodeError => "UTF-8 decoding failed"@,
    }
}

impl CodecError {
    /// A human-readable message identifying the failing stage.
    pub fn message(&self) -> (r: &'static str)
        ensures
            r@ == spec_message(*self),
    {
        match self {
            CodecError::InvalidKeyLength => "invalid key length: 16, 24 or 32 bytes are supported",
            CodecError::KeyDecodeError => "key Base64 decoding failed",
            CodecError::InvalidCiphertextLength => "ciphertext length must be a multiple of 16",
            CodecError::PayloadDecodeError => "payload decoding failed",
            CodecError::PaddingError => "padding validation failed",
            CodecError::Utf8DecodeError => "UTF-8 decoding failed",
        }
    }
}

} // verus!

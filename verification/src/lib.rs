//! AES-ECB codec with PKCS#7 padding and textual key/payload encodings.
//!
//! The library encrypts and decrypts byte payloads under AES in ECB mode
//! (a deliberate compatibility choice, not an oversight), pads with PKCS#7,
//! and converts between bytes and text in Base64 or hexadecimal. Keys may be
//! given raw or Base64-encoded; key text is decoded leniently, payload text
//! strictly.

pub mod cipher;
pub mod commands;
pub mod encoding;
pub mod errors;
pub mod padding;

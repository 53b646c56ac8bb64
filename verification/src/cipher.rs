//! The codec engine: AES block encryption selected by key length (16, 24 or
//! 32 bytes for AES-128/192/256), applied block by block in ECB mode — each
//! 16-byte block independently, no chaining and no IV, a deliberate
//! compatibility requirement.

use vstd::prelude::*;

use aes::cipher::{generic_array::GenericArray, BlockDecrypt, BlockEncrypt, KeyInit};
use aes::{Aes128, Aes192, Aes256};

use crate::errors::CodecError;
use crate::padding::{pkcs7_pad, pkcs7_unpad, spec_pad, spec_unpad};

verus! {

/// Whether a byte length selects an AES variant.
pub open spec fn valid_key_len(n: nat) -> bool {
    n == 16 || n == 24 || n == 32
}

/// What AES-128 block encryption returns for a 16-byte key and block.
pub uninterp spec fn aes128_enc(key: Seq<u8>, block: Seq<u8>) -> Seq<u8>;

/// What AES-128 block decryption returns for a 16-byte key and block.
pub uninterp spec fn aes128_dec(key: Seq<u8>, block: Seq<u8>) -> Seq<u8>;

/// What AES-192 block encryption returns for a 24-byte key and 16-byte block.
pub uninterp spec fn aes192_enc(key: Seq<u8>, block: Seq<u8>) -> Seq<u8>;

/// What AES-192 block decryption returns for a 24-byte key and 16-byte block.
pub uninterp spec fn aes192_dec(key: Seq<u8>, block: Seq<u8>) -> Seq<u8>;

/// What AES-256 block encryption returns for a 32-byte key and 16-byte block.
pub uninterp spec fn aes256_enc(key: Seq<u8>, block: Seq<u8>) -> Seq<u8>;

/// What AES-256 block decryption returns for a 32-byte key and 16-byte block.
pub uninterp spec fn aes256_dec(key: Seq<u8>, block: Seq<u8>) -> Seq<u8>;

/// Relies on `aes::Aes128::encrypt_block`: the AES-128 block permutation, a
/// function of key and block alone, returning 16 bytes that
/// `Aes128::decrypt_block` maps back to the block.
#[verifier::external_body]
fn aes128_encrypt_block(key: &[u8], block: &Vec<u8>) -> (r: Vec<u8>)
    requires
        key@.len() == 16,
        block@.len() == 16,
    ensures
        r@ == aes128_enc(key@, block@),
        r@.len() == 16,
        aes128_dec(key@, r@) == block@,
{
    let cipher = Aes128::new(GenericArray::from_slice(key));
    let mut b = GenericArray::clone_from_slice(block.as_slice());
    cipher.encrypt_block(&mut b);
    b.to_vec()
}

/// Relies on `aes::Aes128::decrypt_block`: the inverse AES-128 block
/// permutation, a function of key and block alone, returning 16 bytes that
/// `Aes128::encrypt_block` maps back to the block.
#[verifier::external_body]
fn aes128_decrypt_block(key: &[u8], block: &Vec<u8>) -> (r: Vec<u8>)
    requires
        key@.len() == 16,
        block@.len() == 16,
    ensures
        r@ == aes128_dec(key@, block@),
        r@.len() == 16,
        aes128_enc(key@, r@) == block@,
{
    let cipher = Aes128::new(GenericArray::from_slice(key));
    let mut b = GenericArray::clone_from_slice(block.as_slice());
    cipher.decrypt_block(&mut b);
    b.to_vec()
}

/// Relies on `aes::Aes192::encrypt_block`: the AES-192 block permutation, a
/// function of key and block alone, returning 16 bytes that
/// `Aes192::decrypt_block` maps back to the block.
#[verifier::external_body]
fn aes192_encrypt_block(key: &[u8], block: &Vec<u8>) -> (r: Vec<u8>)
    requires
        key@.len() == 24,
        block@.len() == 16,
    ensures
        r@ == aes192_enc(key@, block@),
        r@.len() == 16,
        aes192_dec(key@, r@) == block@,
{
    let cipher = Aes192::new(GenericArray::from_slice(key));
    let mut b = GenericArray::clone_from_slice(block.as_slice());
    cipher.encrypt_block(&mut b);
    b.to_vec()
}

/// Relies on `aes::Aes192::decrypt_block`: the inverse AES-192 block
/// permutation, a function of key and block alone, returning 16 bytes that
/// `Aes192::encrypt_block` maps back to the block.
#[verifier::external_body]
fn aes192_decrypt_block(key: &[u8], block: &Vec<u8>) -> (r: Vec<u8>)
    requires
        key@.len() == 24,
        block@.len() == 16,
    ensures
        r@ == aes192_dec(key@, block@),
        r@.len() == 16,
        aes192_enc(key@, r@) == block@,
{
    let cipher = Aes192::new(GenericArray::from_slice(key));
    let mut b = GenericArray::clone_from_slice(block.as_slice());
    cipher.decrypt_block(&mut b);
    b.to_vec()
}

/// Relies on `aes::Aes256::encrypt_block`: the AES-256 block permutation, a
/// function of key and block alone, returning 16 bytes that
/// `Aes256::decrypt_block` maps back to the block.
#[verifier::external_body]
fn aes256_encrypt_block(key: &[u8], block: &Vec<u8>) -> (r: Vec<u8>)
    requires
        key@.len() == 32,
        block@.len() == 16,
    ensures
        r@ == aes256_enc(key@, block@),
        r@.len() == 16,
        aes256_dec(key@, r@) == block@,
{
    let cipher = Aes256::new(GenericArray::from_slice(key));
    let mut b = GenericArray::clone_from_slice(block.as_slice());
    cipher.encrypt_block(&mut b);
    b.to_vec()
}

/// Relies on `aes::Aes256::decrypt_block`: the inverse AES-256 block
/// permutation, a function of key and block alone, returning 16 bytes that
/// `Aes256::encrypt_block` maps back to the block.
#[verifier::external_body]
fn aes256_decrypt_block(key: &[u8], block: &Vec<u8>) -> (r: Vec<u8>)
    requires
        key@.len() == 32,
        block@.len() == 16,
    ensures
        r@ == aes256_dec(key@, block@),
        r@.len() == 16,
        aes256_enc(key@, r@) == block@,
{
    let cipher = Aes256::new(GenericArray::from_slice(key));
    let mut b = GenericArray::clone_from_slice(block.as_slice());
    cipher.decrypt_block(&mut b);
    b.to_vec()
}

/// One AES block encryption, the variant selected by the key length.
pub open spec fn enc_block(key: Seq<u8>, block: Seq<u8>) -> Seq<u8> {
    if key.len() == 16 {
        aes128_enc(key, block)
    } else if key.len() == 24 {
        aes192_enc(key, block)
    } else {
        aes256_enc(key, block)
    }
}

/// One AES block decryption, the variant selected by the key length.
pub open spec fn dec_block(key: Seq<u8>, block: Seq<u8>) -> Seq<u8> {
    if key.len() == 16 {
        aes128_dec(key, block)
    } else if key.len() == 24 {
        aes192_dec(key, block)
    } else {
        aes256_dec(key, block)
    }
}

/// ECB encryption: each consecutive 16-byte block encrypted independently,
/// the results concatenated in input order.
pub open spec fn ecb_encrypt(key: Seq<u8>, data: Seq<u8>) -> Seq<u8>
    decreases data.len(),
{
    if data.len() < 16 {
        Seq::empty()
    } else {
        enc_block(key, data.take(16)) + ecb_encrypt(key, data.skip(16))
    }
}

/// ECB decryption: each consecutive 16-byte block decrypted independently,
/// the results concatenated in input order.
pub open spec fn ecb_decrypt(key: Seq<u8>, data: Seq<u8>) -> Seq<u8>
    decreases data.len(),
{
    if data.len() < 16 {
        Seq::empty()
    } else {
        dec_block(key, data.take(16)) + ecb_decrypt(key, data.skip(16))
    }
}

/// ECB encryption of one more trailing block appends that block's encryption.
pub proof fn lemma_ecb_encrypt_append(key: Seq<u8>, data: Seq<u8>, block: Seq<u8>)
    requires
        data.len() % 16 == 0,
        block.len() == 16,
    ensures
        ecb_encrypt(key, data + block) == ecb_encrypt(key, data) + enc_block(key, block),
    decreases data.len(),
{
    if data.len() == 0 {
        assert((data + block).take(16) =~= block);
        assert((data + block).skip(16) =~= Seq::<u8>::empty());
        assert(ecb_encrypt(key, Seq::<u8>::empty()) == Seq::<u8>::empty());
        assert(ecb_encrypt(key, data + block) =~= ecb_encrypt(key, data) + enc_block(
            key,
            block,
        ));
    } else {
        assert((data + block).take(16) =~= data.take(16));
        assert((data + block).skip(16) =~= data.skip(16) + block);
        assert(data.skip(16).len() % 16 == 0);
        lemma_ecb_encrypt_append(key, data.skip(16), block);
        assert(ecb_encrypt(key, data + block) =~= ecb_encrypt(key, data) + enc_block(
            key,
            block,
        ));
    }
}

/// ECB decryption of one more trailing block appends that block's decryption.
pub proof fn lemma_ecb_decrypt_append(key: Seq<u8>, data: Seq<u8>, block: Seq<u8>)
    requires
        data.len() % 16 == 0,
        block.len() == 16,
    ensures
        ecb_decrypt(key, data + block) == ecb_decrypt(key, data) + dec_block(key, block),
    decreases data.len(),
{
    if data.len() == 0 {
        assert((data + block).take(16) =~= block);
        assert((data + block).skip(16) =~= Seq::<u8>::empty());
        assert(ecb_decrypt(key, Seq::<u8>::empty()) == Seq::<u8>::empty());
        assert(ecb_decrypt(key, data + block) =~= ecb_decrypt(key, data) + dec_block(
            key,
            block,
        ));
    } else {
        assert((data + block).take(16) =~= data.take(16));
        assert((data + block).skip(16) =~= data.skip(16) + block);
        assert(data.skip(16).len() % 16 == 0);
        lemma_ecb_decrypt_append(key, data.skip(16), block);
        assert(ecb_decrypt(key, data + block) =~= ecb_decrypt(key, data) + dec_block(
            key,
            block,
        ));
    }
}

/// One AES block encryption, dispatched on the key length, with the inverse
/// fact of the underlying cipher.
fn encrypt_block(key: &[u8], block: &Vec<u8>) -> (r: Vec<u8>)
    requires
        valid_key_len(key@.len()),
        block@.len() == 16,
    ensures
        r@ == enc_block(key@, block@),
        r@.len() == 16,
        dec_block(key@, r@) == block@,
{
    if key.len() == 16 {
        aes128_encrypt_block(key, block)
    } else if key.len() == 24 {
        aes192_encrypt_block(key, block)
    } else {
        aes256_encrypt_block(key, block)
    }
}

/// One AES block decryption, dispatched on the key length, with the inverse
/// fact of the underlying cipher.
fn decrypt_block(key: &[u8], block: &Vec<u8>) -> (r: Vec<u8>)
    requires
        valid_key_len(key@.len()),
        block@.len() == 16,
    ensures
        r@ == dec_block(key@, block@),
        r@.len() == 16,
        enc_block(key@, r@) == block@,
{
    if key.len() == 16 {
        aes128_decrypt_block(key, block)
    } else if key.len() == 24 {
        aes192_decrypt_block(key, block)
    } else {
        aes256_decrypt_block(key, block)
    }
}

/// Pads the plaintext with PKCS#7 and encrypts it block by block in ECB mode
/// under the AES variant the key length selects; any other key length is
/// rejected with `InvalidKeyLength` before any block is touched. On success
/// the ciphertext is the ECB encryption of the padded plaintext, of the same
/// length, and its ECB decryption is that padded plaintext again.
#[verifier::loop_isolation(false)]
pub fn aes_ecb_encrypt_raw(plaintext: &[u8], key: &[u8]) -> (r: Result<Vec<u8>, CodecError>)
    ensures
        r is Ok <==> valid_key_len(key@.len()),
        r matches Err(e) ==> e == CodecError::InvalidKeyLength,
        r matches Ok(c) ==> {
            let padded = spec_pad(plaintext@, 16);
            &&& c@ == ecb_encrypt(key@, padded)
            &&& c@.len() == padded.len()
            &&& c@.len() % 16 == 0
            &&& ecb_decrypt(key@, c@) == padded
        },
{
    if !(key.len() == 16 || key.len() == 24 || key.len() == 32) {
        return Err(CodecError::InvalidKeyLength);
    }
    let padded = pkcs7_pad(plaintext, 16);
    let mut ciphertext: Vec<u8> = Vec::new();
    let mut i: usize = 0;
    while i < padded.len()
        invariant
            i <= padded@.len(),
            i % 16 == 0,
            ciphertext@.len() == i,
            ciphertext@ == ecb_encrypt(key@, padded@.take(i as int)),
            ecb_decrypt(key@, ciphertext@) == padded@.take(i as int),
        decreases padded@.len() - i,
    {
        let mut block: Vec<u8> = Vec::new();
        let mut j: usize = i;
        while j < i + 16
            invariant
                i <= j <= i + 16,
                i + 16 <= padded@.len(),
                block@ == padded@.subrange(i as int, j as int),
            decreases i + 16 - j,
        {
            block.push(padded[j]);
            j = j + 1;
        }
        let mut eb = encrypt_block(key, &block);
        let ghost eb_seq = eb@;
        let ghost old_ct = ciphertext@;
        ciphertext.append(&mut eb);
        proof {
            lemma_ecb_encrypt_append(key@, padded@.take(i as int), block@);
            lemma_ecb_decrypt_append(key@, old_ct, eb_seq);
            assert(padded@.take(i as int) + block@ =~= padded@.take(i + 16));
        }
        i = i + 16;
    }
    proof {
        assert(padded@.take(padded@.len() as int) =~= padded@);
    }
    Ok(ciphertext)
}

/// Decrypts an ECB ciphertext block by block under the AES variant the key
/// length selects, then removes the PKCS#7 padding. A ciphertext that is not
/// a whole number of 16-byte blocks is rejected with
/// `InvalidCiphertextLength` before the key length is examined; a key length
/// other than 16, 24 or 32 with `InvalidKeyLength`; and invalid padding in
/// the decrypted bytes with `PaddingError`. On success the result is the
/// unpadded ECB decryption of the ciphertext.
#[verifier::loop_isolation(false)]
pub fn aes_ecb_decrypt_raw(ciphertext: &[u8], key: &[u8]) -> (r: Result<Vec<u8>, CodecError>)
    ensures
        r is Ok <==> ciphertext@.len() % 16 == 0 && valid_key_len(key@.len()) && spec_unpad(
            ecb_decrypt(key@, ciphertext@),
        ) is Some,
        r matches Ok(v) ==> Some(v@) == spec_unpad(ecb_decrypt(key@, ciphertext@)),
        r matches Err(e) ==> {
            &&& (e == CodecError::InvalidCiphertextLength <==> ciphertext@.len() % 16 != 0)
            &&& (e == CodecError::InvalidKeyLength <==> ciphertext@.len() % 16 == 0
                && !valid_key_len(key@.len()))
            &&& (e == CodecError::PaddingError <==> ciphertext@.len() % 16 == 0
                && valid_key_len(key@.len()) && spec_unpad(
                ecb_decrypt(key@, ciphertext@),
            ) is None)
        },
{
    if ciphertext.len() % 16 != 0 {
        return Err(CodecError::InvalidCiphertextLength);
    }
    if !(key.len() == 16 || key.len() == 24 || key.len() == 32) {
        return Err(CodecError::InvalidKeyLength);
    }
    let mut plaintext: Vec<u8> = Vec::new();
    let mut i: usize = 0;
    while i < ciphertext.len()
        invariant
            i <= ciphertext@.len(),
            i % 16 == 0,
            plaintext@ == ecb_decrypt(key@, ciphertext@.take(i as int)),
        decreases ciphertext@.len() - i,
    {
        let mut block: Vec<u8> = Vec::new();
        let mut j: usize = i;
        while j < i + 16
            invariant
                i <= j <= i + 16,
                i + 16 <= ciphertext@.len(),
                block@ == ciphertext@.subrange(i as int, j as int),
            decreases i + 16 - j,
        {
            block.push(ciphertext[j]);
            j = j + 1;
        }
        let mut db = decrypt_block(key, &block);
        plaintext.append(&mut db);
        proof {
            lemma_ecb_decrypt_append(key@, ciphertext@.take(i as int), block@);
            assert(ciphertext@.take(i as int) + block@ =~= ciphertext@.take(i + 16));
        }
        i = i + 16;
    }
    proof {
        assert(ciphertext@.take(ciphertext@.len() as int) =~= ciphertext@);
    }
    pkcs7_unpad(plaintext.as_slice())
}

} // verus!

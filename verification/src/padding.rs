//! PKCS#7 padding: extend a byte sequence to a whole number of blocks by
//! appending `n` bytes each valued `n`, and validate-and-remove that padding.

use vstd::prelude::*;
use vstd::arithmetic::div_mod::{
    lemma_fundamental_div_mod, lemma_mod_bound, lemma_mod_multiples_vanish, lemma_mod_self_0,
};

use crate::errors::CodecError;

verus! {

/// How many bytes PKCS#7 appends to a sequence of length `len` for block
/// size `bs`: always between 1 and `bs`, a full block when `len` is already
/// a multiple of `bs`.
pub open spec fn pad_fill(len: nat, bs: nat) -> nat
    recommends
        1 <= bs,
{
    (bs - len % bs) as nat
}

/// The PKCS#7 padding of `data` for block size `bs`.
pub open spec fn spec_pad(data: Seq<u8>, bs: nat) -> Seq<u8> {
    data + Seq::new(pad_fill(data.len(), bs), |i: int| pad_fill(data.len(), bs) as u8)
}

/// PKCS#7 padding removal: `Some` exactly when the sequence is non-empty,
/// its last byte `n` is between 1 and 16, and its last `n` bytes all equal
/// `n`; then the result is the sequence with those `n` bytes removed.
pub open spec fn spec_unpad(data: Seq<u8>) -> Option<Seq<u8>> {
    if data.len() == 0 {
        None
    } else {
        let n = data.last() as int;
        if 1 <= n && n <= 16 && n <= data.len() && (forall|i: int|
            data.len() - n <= i < data.len() ==> data[i] == data.last()) {
            Some(data.take(data.len() - n))
        } else {
            None
        }
    }
}

/// Appends PKCS#7 padding: between 1 and `block_size` bytes, each valued
/// with the number of bytes appended, so that the result is a non-empty
/// whole number of blocks.
#[verifier::loop_isolation(false)]
pub fn pkcs7_pad(data: &[u8], block_size: usize) -> (r: Vec<u8>)
    requires
        1 <= block_size <= 16,
    ensures
        r@ == spec_pad(data@, block_size as nat),
        r@.len() == data@.len() + pad_fill(data@.len(), block_size as nat),
        1 <= pad_fill(data@.len(), block_size as nat) <= block_size,
        r@.len() as int % (block_size as int) == 0,
{
    proof {
        let m = block_size as int;
        let len = data@.len() as int;
        lemma_mod_bound(len, m);
        lemma_fundamental_div_mod(len, m);
        lemma_mod_multiples_vanish(len / m, m, m);
        lemma_mod_self_0(m);
    }
    let padding_len: usize = block_size - data.len() % block_size;
    let mut padded: Vec<u8> = Vec::new();
    let mut i: usize = 0;
    while i < data.len()
        invariant
            i <= data@.len(),
            padded@ == data@.take(i as int),
        decreases data@.len() - i,
    {
        padded.push(data[i]);
        i = i + 1;
    }
    let mut j: usize = 0;
    while j < padding_len
        invariant
            j <= padding_len,
            padded@ == data@ + Seq::new(j as nat, |k: int| padding_len as u8),
        decreases padding_len - j,
    {
        padded.push(padding_len as u8);
        j = j + 1;
    }
    proof {
        assert(padded@ =~= spec_pad(data@, block_size as nat));
    }
    padded
}

/// Validates and removes PKCS#7 padding, failing with `PaddingError` when
/// the data is empty, the last byte is 0 or exceeds 16, or fewer than that
/// many trailing bytes all equal it.
#[verifier::loop_isolation(false)]
pub fn pkcs7_unpad(data: &[u8]) -> (r: Result<Vec<u8>, CodecError>)
    ensures
        r is Ok <==> spec_unpad(data@) is Some,
        r matches Ok(v) ==> Some(v@) == spec_unpad(data@),
        r matches Err(e) ==> e == CodecError::PaddingError,
{
    let len = data.len();
    if len == 0 {
        return Err(CodecError::PaddingError);
    }
    let n = data[len - 1] as usize;
    if n == 0 || n > 16 || n > len {
        return Err(CodecError::PaddingError);
    }
    let mut i: usize = len - n;
    while i < len
        invariant
            len - n <= i <= len,
            forall|k: int| len - n <= k < i ==> data@[k] == data@.last(),
        decreases len - i,
    {
        if data[i] != data[len - 1] {
            return Err(CodecError::PaddingError);
        }
        i = i + 1;
    }
    let mut out: Vec<u8> = Vec::new();
    let mut p: usize = 0;
    while p < len - n
        invariant
            p <= len - n,
            out@ == data@.take(p as int),
        decreases len - n - p,
    {
        out.push(data[p]);
        p = p + 1;
    }
    Ok(out)
}

/// PKCS#7 removal inverts PKCS#7 padding: for every byte sequence and every
/// block size from 1 to 16, unpadding the padded sequence gives back the
/// original, and between 1 and `bs` bytes were appended.
pub proof fn lemma_unpad_pad(data: Seq<u8>, bs: nat)
    requires
        1 <= bs <= 16,
    ensures
        spec_unpad(spec_pad(data, bs)) == Some(data),
        data.len() < spec_pad(data, bs).len() <= data.len() + bs,
{
    lemma_mod_bound(data.len() as int, bs as int);
    let p = pad_fill(data.len(), bs);
    let padded = spec_pad(data, bs);
    assert(1 <= p <= bs);
    assert(padded.last() == p as u8);
    assert(forall|i: int|
        padded.len() - p <= i < padded.len() ==> padded[i] == padded.last());
    assert(padded.take(padded.len() - p) =~= data);
}

} // verus!

use vstd::prelude::*;

use vstd::arithmetic::div_mod::lemma_fundamental_div_mod;
use vstd::arithmetic::div_mod::lemma_fundamental_div_mod_converse;
use vstd::arithmetic::div_mod::lemma_mod_bound;
use vstd::arithmetic::div_mod::lemma_mod_multiples_basic;

verus! {

/// Every outward response is padded to a multiple of this many bytes,
/// so that its length leaks nothing about the branch taken or the data
/// stored.
pub const BLOCK_SIZE: usize = 256;

/// The length a byte string has after padding to a multiple of `block`.
pub open spec fn padded_len(len: int, block: int) -> int
    recommends
        block > 0,
{
    len + ((block - len % block) % block)
}

/// Relies on secret_toolkit::utils::space_pad: appends ASCII spaces
/// (byte 32) until the length of `message` is a multiple of
/// `block_size`, and leaves the original bytes in place.
#[verifier::external_body]
fn space_pad(message: &mut Vec<u8>, block_size: usize)
    requires
        block_size > 0,
        old(message)@.len() + block_size <= usize::MAX,
    ensures
        final(message)@.len() == padded_len(old(message)@.len() as int, block_size as int),
        final(message)@.subrange(0, old(message)@.len() as int) == old(message)@,
        forall|i: int|
            old(message)@.len() <= i < final(message)@.len() ==> final(message)@[i] == 32u8,
{
    secret_toolkit::utils::space_pad(message, block_size);
}

/// The padded length is the next multiple of `block` at or above `len`:
/// it is aligned, it never shrinks the message, and it exceeds `len` by
/// less than one block.
pub proof fn lemma_pad_aligns(len: int, block: int)
    requires
        0 <= len,
        0 < block,
    ensures
        padded_len(len, block) % block == 0,
        padded_len(len, block) >= len,
        padded_len(len, block) < len + block,
        padded_len(len, block) == ((len + block - 1) / block) * block,
{
    lemma_fundamental_div_mod(len, block);
    lemma_mod_bound(len, block);
    let q = len / block;
    let r = len % block;
    assert(len == block * q + r);
    if r == 0 {
        lemma_fundamental_div_mod_converse(block, block, 1, 0);
        assert((block - 0) % block == 0);
        assert(padded_len(len, block) == len);
        assert(len + block - 1 == q * block + (block - 1)) by (nonlinear_arith)
            requires
                len == block * q + r,
                r == 0,
        ;
        lemma_fundamental_div_mod_converse(len + block - 1, block, q, block - 1);
        assert(((len + block - 1) / block) * block == q * block);
        assert(q * block == len) by (nonlinear_arith)
            requires
                len == block * q + r,
                r == 0,
        ;
    } else {
        lemma_fundamental_div_mod_converse(block - r, block, 0, block - r);
        assert((block - r) % block == block - r);
        assert(padded_len(len, block) == len + block - r);
        assert(len + block - r == (q + 1) * block) by (nonlinear_arith)
            requires
                len == block * q + r,
        ;
        lemma_mod_multiples_basic(q + 1, block);
        assert(padded_len(len, block) % block == 0);
        assert(len + block - 1 == (q + 1) * block + (r - 1)) by (nonlinear_arith)
            requires
                len == block * q + r,
        ;
        lemma_fundamental_div_mod_converse(len + block - 1, block, q + 1, r - 1);
    }
}

/// Two messages whose lengths fall in the same block-sized bucket are
/// padded to the same length, so the padded size reveals only the
/// bucket.
pub proof fn lemma_pad_bucket(len1: int, len2: int, block: int)
    requires
        0 <= len1,
        0 <= len2,
        0 < block,
        (len1 + block - 1) / block == (len2 + block - 1) / block,
    ensures
        padded_len(len1, block) == padded_len(len2, block),
{
    lemma_pad_aligns(len1, block);
    lemma_pad_aligns(len2, block);
}

/// Pads an encoded response to the fixed block size.  Applied to every
/// outward response, success and error alike, before it leaves the
/// store.
pub fn pad_response(response: &mut Vec<u8>)
    requires
        old(response)@.len() + BLOCK_SIZE <= usize::MAX,
    ensures
        final(response)@.len() == padded_len(old(response)@.len() as int, BLOCK_SIZE as int),
        final(response)@.len() as int % (BLOCK_SIZE as int) == 0,
        final(response)@.len() >= old(response)@.len(),
        final(response)@.subrange(0, old(response)@.len() as int) == old(response)@,
        forall|i: int|
            old(response)@.len() <= i < final(response)@.len() ==> final(response)@[i] == 32u8,
{
    proof {
        lemma_pad_aligns(old(response)@.len() as int, BLOCK_SIZE as int);
    }
    space_pad(response, BLOCK_SIZE);
}

} // verus!

use vstd::prelude::*;

verus! {

/// The number of bytes in a digest of the secure hash.
pub const HASH_SIZE: usize = 32;

/// The digest that the secure hash assigns to a byte sequence.  The
/// digest is a function of the input alone; nothing further is assumed
/// of it.
pub uninterp spec fn sha256_of(data: Seq<u8>) -> Seq<u8>;

/// The sentinel a key check compares against when no viewing key was
/// ever stored for an identity: a digest-length run of zero bytes.
pub open spec fn zero_hash() -> Seq<u8> {
    Seq::new(HASH_SIZE as nat, |i: int| 0u8)
}

/// Relies on secret_toolkit::crypto::sha_256: the SHA-256 digest of the
/// input, 32 bytes, a function of the input alone.
#[verifier::external_body]
pub fn hash_bytes(data: &[u8]) -> (r: Vec<u8>)
    ensures
        r@ == sha256_of(data@),
        r@.len() == HASH_SIZE,
{
    secret_toolkit::crypto::sha_256(data).to_vec()
}

/// A digest-length run of zero bytes, the stored-key stand-in for an
/// identity that never set a key.
pub fn zero_hash_bytes() -> (r: Vec<u8>)
    ensures
        r@ == zero_hash(),
{
    let mut out: Vec<u8> = Vec::new();
    let mut i: usize = 0;
    while i < HASH_SIZE
        invariant
            0 <= i <= HASH_SIZE,
            out@.len() == i,
            forall|j: int| 0 <= j < i ==> out@[j] == 0u8,
        decreases HASH_SIZE - i,
    {
        out.push(0u8);
        i += 1;
    }
    proof {
        assert(out@ =~= zero_hash());
    }
    out
}

/// Equality of two byte strings, computed in constant time for inputs
/// of equal length: every byte pair is visited and folded into an
/// accumulator, with no early exit on the first mismatch.
pub fn ct_eq(a: &Vec<u8>, b: &Vec<u8>) -> (r: bool)
    ensures
        r == (a@ == b@),
{
    if a.len() != b.len() {
        proof {
            assert(a@.len() != b@.len());
        }
        return false;
    }
    let n = a.len();
    let mut acc: u8 = 0;
    let mut i: usize = 0;
    while i < n
        invariant
            n == a@.len(),
            n == b@.len(),
            0 <= i <= n,
            (acc == 0) <==> (forall|j: int| 0 <= j < i ==> a@[j] == b@[j]),
        decreases n - i,
    {
        let x = a[i];
        let y = b[i];
        let d: u8 = x ^ y;
        let joined: u8 = acc | d;
        proof {
            assert(((x ^ y) == 0) == (x == y)) by (bit_vector);
            assert(((acc | d) == 0) == (acc == 0 && d == 0)) by (bit_vector);
        }
        acc = joined;
        i += 1;
    }
    if acc == 0 {
        proof {
            assert(a@ =~= b@);
        }
        true
    } else {
        proof {
            assert(a@ != b@);
        }
        false
    }
}

} // verus!

//! The comparison kernel: the Hamming distance between two equal-length
//! boolean fingerprints, with the laws that hold of it.

use vstd::prelude::*;

verus! {

/// Why a comparison was rejected.
#[derive(Clone, Copy, Debug, PartialEq, Eq, Structural)]
pub enum FingerprintError {
    /// The two fingerprints do not have the same length.
    InvalidInput,
}

/// Number of positions in `[0, n)` at which `a` and `b` differ.
pub open spec fn hamming_upto(a: Seq<bool>, b: Seq<bool>, n: int) -> int
    decreases n,
{
    if n <= 0 {
        0
    } else {
        hamming_upto(a, b, n - 1) + if a[n - 1] != b[n - 1] {
            1int
        } else {
            0int
        }
    }
}

/// Hamming distance between two equal-length boolean sequences: the number of
/// positions at which they differ.
pub open spec fn hamming(a: Seq<bool>, b: Seq<bool>) -> int {
    hamming_upto(a, b, a.len() as int)
}

proof fn lemma_hamming_upto_self(a: Seq<bool>, n: int)
    ensures
        hamming_upto(a, a, n) == 0,
    decreases n,
{
    if n > 0 {
        lemma_hamming_upto_self(a, n - 1);
    }
}

/// A fingerprint is at distance zero from itself.
pub proof fn lemma_hamming_self(a: Seq<bool>)
    ensures
        hamming(a, a) == 0,
{
    lemma_hamming_upto_self(a, a.len() as int);
}

proof fn lemma_hamming_upto_symmetric(a: Seq<bool>, b: Seq<bool>, n: int)
    ensures
        hamming_upto(a, b, n) == hamming_upto(b, a, n),
    decreases n,
{
    if n > 0 {
        lemma_hamming_upto_symmetric(a, b, n - 1);
    }
}

/// The distance does not depend on the order of its two equal-length
/// arguments.
pub proof fn lemma_hamming_symmetric(a: Seq<bool>, b: Seq<bool>)
    requires
        a.len() == b.len(),
    ensures
        hamming(a, b) == hamming(b, a),
{
    lemma_hamming_upto_symmetric(a, b, a.len() as int);
}

proof fn lemma_hamming_upto_range(a: Seq<bool>, b: Seq<bool>, n: int)
    requires
        n >= 0,
    ensures
        0 <= hamming_upto(a, b, n) <= n,
    decreases n,
{
    if n > 0 {
        lemma_hamming_upto_range(a, b, n - 1);
    }
}

/// The distance between two equal-length fingerprints of length `L` lies in
/// `[0, L]`.
pub proof fn lemma_hamming_range(a: Seq<bool>, b: Seq<bool>)
    requires
        a.len() == b.len(),
    ensures
        0 <= hamming(a, b) <= a.len(),
{
    lemma_hamming_upto_range(a, b, a.len() as int);
}

proof fn lemma_hamming_upto_triangle(a: Seq<bool>, b: Seq<bool>, c: Seq<bool>, n: int)
    ensures
        hamming_upto(a, c, n) <= hamming_upto(a, b, n) + hamming_upto(b, c, n),
    decreases n,
{
    if n > 0 {
        lemma_hamming_upto_triangle(a, b, c, n - 1);
    }
}

/// Triangle inequality: going through an intermediate fingerprint `b` never
/// shortens the distance from `a` to `c`.
pub proof fn lemma_hamming_triangle(a: Seq<bool>, b: Seq<bool>, c: Seq<bool>)
    requires
        a.len() == b.len(),
        b.len() == c.len(),
    ensures
        hamming(a, c) <= hamming(a, b) + hamming(b, c),
{
    lemma_hamming_upto_triangle(a, b, c, a.len() as int);
}

/// Count the positions at which the two fingerprints differ. Fingerprints of
/// unequal length are rejected rather than silently truncated.
pub fn compare_fingerprints(fingerprint1: &[bool], fingerprint2: &[bool]) -> (r: Result<
    usize,
    FingerprintError,
>)
    ensures
        r is Ok <==> fingerprint1@.len() == fingerprint2@.len(),
        r matches Ok(d) ==> d == hamming(fingerprint1@, fingerprint2@),
        r matches Err(e) ==> e == FingerprintError::InvalidInput,
{
    let n: usize = fingerprint1.len();
    if n != fingerprint2.len() {
        return Err(FingerprintError::InvalidInput);
    }
    let mut count: usize = 0;
    let mut i: usize = 0;
    while i < n
        invariant
            i <= n,
            n == fingerprint1@.len(),
            fingerprint1@.len() == fingerprint2@.len(),
            count == hamming_upto(fingerprint1@, fingerprint2@, i as int),
            count <= i,
        decreases n - i,
    {
        if fingerprint1[i] != fingerprint2[i] {
            count = count + 1;
        }
        i = i + 1;
    }
    Ok(count)
}

} // verus!

//! Random fingerprint datasets and the comparison pass over one.

use vstd::prelude::*;

use crate::distance::FingerprintError;
use crate::distance::compare_fingerprints;
use crate::distance::hamming;

verus! {

/// Relies on rand::random: draws one value from the thread-local generator.
/// Nothing is promised of which value comes back.
pub assume_specification<T>[ rand::random::<T> ]() -> (r: T)
    where
        rand::distr::StandardUniform: rand::distr::Distribution<T>,
;

/// One fingerprint: `l` booleans, each drawn independently at random.
pub fn generate_fingerprint(l: usize) -> (f: Vec<bool>)
    ensures
        f@.len() == l,
{
    let mut f: Vec<bool> = Vec::new();
    let mut i: usize = 0;
    while i < l
        invariant
            i <= l,
            f@.len() == i,
        decreases l - i,
    {
        f.push(rand::random::<bool>());
        i = i + 1;
    }
    f
}

/// A dataset: `n` random fingerprints of length `l` each.
pub fn generate_dataset(n: usize, l: usize) -> (d: Vec<Vec<bool>>)
    ensures
        d@.len() == n,
        forall|i: int| 0 <= i < n ==> (#[trigger] d@[i])@.len() == l,
{
    let mut d: Vec<Vec<bool>> = Vec::new();
    let mut i: usize = 0;
    while i < n
        invariant
            i <= n,
            d@.len() == i,
            forall|j: int| 0 <= j < i ==> (#[trigger] d@[j])@.len() == l,
        decreases n - i,
    {
        d.push(generate_fingerprint(l));
        i = i + 1;
    }
    d
}

/// One comparison pass: the distance from every fingerprint of the dataset to
/// the dataset's first element, the reference, in dataset order. An empty
/// dataset yields an empty result; a fingerprint whose length differs from the
/// reference's is rejected.
pub fn distances_from_reference(dataset: &Vec<Vec<bool>>) -> (r: Result<
    Vec<usize>,
    FingerprintError,
>)
    ensures
        r is Ok <==> (forall|i: int|
            0 <= i < dataset@.len() ==> (#[trigger] dataset@[i])@.len() == dataset@[0]@.len()),
        r matches Ok(ds) ==> {
            &&& ds@.len() == dataset@.len()
            &&& forall|i: int|
                0 <= i < dataset@.len() ==> ds@[i] == hamming((#[trigger] dataset@[i])@, dataset@[0]@)
        },
        r matches Err(e) ==> e == FingerprintError::InvalidInput,
{
    let mut out: Vec<usize> = Vec::new();
    if dataset.len() == 0 {
        return Ok(out);
    }
    let reference = &dataset[0];
    let mut i: usize = 0;
    while i < dataset.len()
        invariant
            0 < dataset@.len(),
            i <= dataset@.len(),
            reference@ == dataset@[0]@,
            out@.len() == i,
            forall|j: int| 0 <= j < i ==> (#[trigger] dataset@[j])@.len() == dataset@[0]@.len(),
            forall|j: int| 0 <= j < i ==> out@[j] == hamming((#[trigger] dataset@[j])@, dataset@[0]@),
        decreases dataset@.len() - i,
    {
        let d = match compare_fingerprints(dataset[i].as_slice(), reference.as_slice()) {
            Ok(d) => d,
            Err(e) => {
                return Err(e);
            },
        };
        out.push(d);
        i = i + 1;
    }
    Ok(out)
}

} // verus!

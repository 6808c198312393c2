//! Weights of the composite quadrature rule used to integrate equally spaced
//! samples. With `Δx = (upper - lower) / len` the integral is
//! `3Δx/8 · Σ wᵢ·yᵢ`, where sample `i ≥ 1` weighs 2 when `i` is a multiple of
//! three and 3 otherwise, and both end samples weigh one more.
use vstd::prelude::*;

verus! {

/// The weight of sample `i` of `len`.
pub open spec fn simpson_weight(len: nat, i: nat) -> nat {
    let inner: nat = if i == 0 {
        0
    } else if i % 3 == 0 {
        2
    } else {
        3
    };
    let first: nat = if i == 0 {
        1
    } else {
        0
    };
    let last: nat = if i + 1 == len {
        1
    } else {
        0
    };
    inner + first + last
}

/// The weights of `len` equally spaced samples, in order. A single sample
/// counts as both ends.
pub fn simpson_weights(len: usize) -> (w: Vec<u64>)
    requires
        len >= 1,
    ensures
        w@.len() == len,
        forall|i: int| 0 <= i < len ==> #[trigger] w@[i] == simpson_weight(len as nat, i as nat),
{
    let mut w: Vec<u64> = Vec::new();
    for i in 0..len
        invariant
            w@.len() == i,
            forall|j: int|
                0 <= j < i ==> #[trigger] w@[j] == simpson_weight(len as nat, j as nat),
    {
        let inner: u64 = if i == 0 {
            0
        } else if i % 3 == 0 {
            2
        } else {
            3
        };
        let first: u64 = if i == 0 {
            1
        } else {
            0
        };
        let last: u64 = if i + 1 == len {
            1
        } else {
            0
        };
        w.push(inner + first + last);
    }
    w
}

} // verus!

//! The weight tables of the two quadrature rules.

use crate::InvalidInput;
use vstd::prelude::*;

verus! {

/// Weight of sample `i` in the composite Simpson 1/3 rule over `n`
/// subintervals: the two endpoints weigh 1, odd-indexed samples 4, and
/// interior even-indexed samples 2.
pub open spec fn simpson_weight(i: int, n: int) -> int {
    if i == 0 || i == n {
        1
    } else if i % 2 == 1 {
        4
    } else {
        2
    }
}

/// Weight of sample `i` in the boundary-corrected rule over `n` subintervals:
/// the four samples at each end weigh 17, 59, 43, 49 (mirrored), and every
/// sample in between weighs 48.
pub open spec fn corrected_weight(i: int, n: int) -> int {
    if i == 0 || i == n {
        17
    } else if i == 1 || i == n - 1 {
        59
    } else if i == 2 || i == n - 2 {
        43
    } else if i == 3 || i == n - 3 {
        49
    } else {
        48
    }
}

/// Number of subinterval pairs the composite Simpson rule sums over, `n / 2`.
/// An odd or zero subinterval count is rejected: the rule pairs subintervals
/// two by two and needs at least one pair.
pub fn simpson_pair_count(n: usize) -> (r: Result<usize, InvalidInput>)
    ensures
        n % 2 == 1 ==> r == Err::<usize, InvalidInput>(InvalidInput::OddSubintervalCount),
        n == 0 ==> r == Err::<usize, InvalidInput>(InvalidInput::TooFewSubintervals),
        n % 2 == 0 && n >= 2 ==> r == Ok::<usize, InvalidInput>((n / 2) as usize),
{
    if n % 2 == 1 {
        Err(InvalidInput::OddSubintervalCount)
    } else if n == 0 {
        Err(InvalidInput::TooFewSubintervals)
    } else {
        Ok(n / 2)
    }
}

/// The 1-4-2-...-2-4-1 weight table of the composite Simpson 1/3 rule for `n`
/// subintervals, one weight per sample. The subinterval count must be even
/// and nonzero; an odd count is rejected rather than read out of bounds.
pub fn simpson_weights(n: usize) -> (r: Result<Vec<u64>, InvalidInput>)
    requires
        n < usize::MAX,  // the table holds n + 1 weights
    ensures
        n % 2 == 1 ==> r == Err::<Vec<u64>, InvalidInput>(InvalidInput::OddSubintervalCount),
        n == 0 ==> r == Err::<Vec<u64>, InvalidInput>(InvalidInput::TooFewSubintervals),
        n % 2 == 0 && n >= 2 ==> (r matches Ok(w) && w@.len() == n + 1 && (forall|i: int|
            0 <= i <= n ==> w@[i] as int == simpson_weight(i, n as int))),
{
    if n % 2 == 1 {
        return Err(InvalidInput::OddSubintervalCount);
    }
    if n == 0 {
        return Err(InvalidInput::TooFewSubintervals);
    }
    let mut w: Vec<u64> = Vec::new();
    let mut i: usize = 0;
    while i <= n
        invariant
            n % 2 == 0,
            2 <= n < usize::MAX,
            i <= n + 1,
            w@.len() == i,
            forall|j: int| 0 <= j < i ==> w@[j] as int == simpson_weight(j, n as int),
        decreases n + 1 - i,
    {
        let wi: u64 = if i == 0 || i == n {
            1
        } else if i % 2 == 1 {
            4
        } else {
            2
        };
        w.push(wi);
        i = i + 1;
    }
    Ok(w)
}

/// The weight table of the boundary-corrected rule for `n` subintervals, one
/// weight per sample. The two four-sample boundary blocks must not overlap,
/// so at least 7 subintervals (8 samples) are needed; at exactly 7 the
/// uniform interior block is empty.
pub fn corrected_weights(n: usize) -> (r: Result<Vec<u64>, InvalidInput>)
    requires
        n < usize::MAX,  // the table holds n + 1 weights
    ensures
        n < 7 ==> r == Err::<Vec<u64>, InvalidInput>(InvalidInput::TooFewSubintervals),
        n >= 7 ==> (r matches Ok(w) && w@.len() == n + 1 && (forall|i: int|
            0 <= i <= n ==> w@[i] as int == corrected_weight(i, n as int))),
{
    if n < 7 {
        return Err(InvalidInput::TooFewSubintervals);
    }
    let mut w: Vec<u64> = Vec::new();
    let mut i: usize = 0;
    while i <= n
        invariant
            7 <= n < usize::MAX,
            i <= n + 1,
            w@.len() == i,
            forall|j: int| 0 <= j < i ==> w@[j] as int == corrected_weight(j, n as int),
        decreases n + 1 - i,
    {
        let wi: u64 = if i == 0 || i == n {
            17
        } else if i == 1 || i == n - 1 {
            59
        } else if i == 2 || i == n - 2 {
            43
        } else if i == 3 || i == n - 3 {
            49
        } else {
            48
        };
        w.push(wi);
        i = i + 1;
    }
    Ok(w)
}

} // verus!

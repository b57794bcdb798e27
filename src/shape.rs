use vstd::prelude::*;

use crate::error::HashChainError;

verus! {

/// The structural metadata of a circuit that a verifier of its proofs needs,
/// as plain numbers.
#[derive(Clone, Copy, Debug, PartialEq, Eq, Structural)]
pub struct CommonShape {
    /// Base-two logarithm of the padded gate count.
    pub degree_bits: usize,
    pub num_public_inputs: usize,
    pub num_constants: usize,
    pub num_gate_constraints: usize,
    pub num_partial_products: usize,
    pub quotient_degree_factor: usize,
    /// Number of distinct gate types.
    pub num_gate_types: usize,
}

/// The smallest gate count a padded circuit may have.
pub const MIN_PADDED_GATES: usize = 4096;

pub open spec fn pow2(k: nat) -> nat
    decreases k,
{
    if k == 0 {
        1
    } else {
        2 * pow2((k - 1) as nat)
    }
}

pub open spec fn is_pow2(n: nat) -> bool {
    exists|k: nat| pow2(k) == n
}

/// Whether `p` is the padded size of a circuit of `n` gates: the smallest
/// power of two that is at least `n` and at least `MIN_PADDED_GATES`.
pub open spec fn is_padded_count(n: nat, p: nat) -> bool {
    &&& is_pow2(p)
    &&& p >= n
    &&& p >= MIN_PADDED_GATES
    &&& (p == MIN_PADDED_GATES || p < 2 * n)
}

/// The number of no-op gates to add to a circuit of `num_gates` gates so
/// that its gate count becomes the padded count: the smallest power of two
/// that is at least `num_gates` and at least `MIN_PADDED_GATES`.
pub fn noop_gates_needed(num_gates: usize) -> (r: usize)
    requires
        num_gates <= usize::MAX / 2,
    ensures
        is_padded_count(num_gates as nat, (num_gates + r) as nat),
{
    let mut p: usize = MIN_PADDED_GATES;
    let ghost mut k: nat = 12;
    proof {
        reveal_with_fuel(pow2, 13);
    }
    while p < num_gates
        invariant
            num_gates <= usize::MAX / 2,
            p == pow2(k),
            p >= MIN_PADDED_GATES,
            p == MIN_PADDED_GATES || p < 2 * num_gates,
        decreases usize::MAX - p,
    {
        p = p * 2;
        proof {
            k = k + 1;
        }
    }
    p - num_gates
}

impl CommonShape {
    /// The same shape with `n` public inputs: the count the real circuit has
    /// once all its public inputs are registered.
    pub fn with_public_inputs(self, n: usize) -> (r: CommonShape)
        ensures
            r == (CommonShape { num_public_inputs: n, ..self }),
    {
        CommonShape { num_public_inputs: n, ..self }
    }
}

/// Compares a resolved shape with the one actually compiled: they must be
/// equal, else the proofs of the circuit would not verify against it.
pub fn check_shape(resolved: &CommonShape, compiled: &CommonShape) -> (r: Result<(), HashChainError>)
    ensures
        r is Ok <==> *resolved == *compiled,
        r is Err ==> r == Err::<(), HashChainError>(
            HashChainError::ShapeMismatch { resolved: *resolved, compiled: *compiled },
        ),
{
    if *resolved == *compiled {
        Ok(())
    } else {
        Err(HashChainError::ShapeMismatch { resolved: *resolved, compiled: *compiled })
    }
}

} // verus!

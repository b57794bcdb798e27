use vstd::prelude::*;

use crate::shape::CommonShape;

verus! {

/// Declares `anyhow::Error`, the error type of the proof system, so that its
/// messages can travel inside this library's errors.
#[verifier::external_type_specification]
#[verifier::external_body]
pub struct ExAnyhowError(anyhow::Error);

/// The check on a proof that failed.
#[derive(Debug)]
pub enum VerificationCheck {
    /// The verifier data exposed by the proof is not the circuit's own.
    VerifierData,
    /// The proof does not carry the chain's initial hash.
    InitialHash,
    /// The proof's step counter breaks the counter recurrence.
    Counter,
    /// The final hash differs from the one recomputed outside the circuit.
    HashRecomputation,
    /// The proof system rejected the proof.
    Proof { cause: anyhow::Error },
}

/// Everything that can stop the construction or the verification of a chain.
#[derive(Debug)]
pub enum HashChainError {
    /// The circuit compiler failed.
    Circuit { cause: anyhow::Error },
    /// The proof system refused the witness of a layer (0 is the base layer).
    Witness { layer: u64, cause: anyhow::Error },
    /// The resolved common shape differs from the shape actually compiled.
    ShapeMismatch { resolved: CommonShape, compiled: CommonShape },
    /// A proof failed a check; `at_layer` is set while a chain is being built.
    Verification { at_layer: Option<u64>, check: VerificationCheck },
    /// A public-input vector is too short for the fixed layout.
    Layout { needed: usize, found: usize },
}

} // verus!

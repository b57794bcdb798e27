//! A succinct proof that a digest was obtained by hashing an initial digest
//! repeatedly, built with a circuit that verifies a proof of itself.
//!
//! The library holds the protocol: the public-input layout that every proof of
//! the chain exposes, the sizing rules of the self-verifying circuit, the driver
//! that decides layer by layer what the prover does next, and the external
//! verifier that recomputes the chain's tip. The proof system and the hash
//! primitive are driven by the caller, who performs each action the state
//! machines return and hands the outcome back as an event.
mod chain_verifier;
mod driver;
mod error;
mod gadget;
mod layout;
mod shape;

pub use chain_verifier::{ChainVerifier, VerifierAction, VerifierEvent, VerifierPhase};
pub use driver::{DriverPhase, LayerAction, LayerDriver, LayerEvent};
pub use error::{HashChainError, VerificationCheck};
pub use layout::{
    same_digest, same_values, ChainInputs, COUNTER_OFFSET, CURRENT_HASH_OFFSET, DIGEST_LEN,
    FIELD_ORDER, INITIAL_HASH_OFFSET, VERIFIER_DATA_OFFSET,
};
pub use shape::{check_shape, noop_gates_needed, CommonShape, MIN_PADDED_GATES};

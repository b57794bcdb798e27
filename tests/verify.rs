use hash_chain::{
    ChainVerifier, HashChainError, VerificationCheck, VerifierAction, VerifierEvent,
    VerifierPhase,
};

const INITIAL: [u64; 4] = [0, 1, 2, 3];

fn verifier_data() -> Vec<u64> {
    vec![21, 22, 23, 24]
}

fn toy_hash(x: [u64; 4]) -> [u64; 4] {
    [
        x[1].wrapping_mul(31).wrapping_add(x[0]) ^ 7,
        x[2].wrapping_mul(17).wrapping_add(x[1]),
        x[3].wrapping_mul(13).wrapping_add(x[2]) ^ 3,
        x[0].wrapping_mul(5).wrapping_add(x[3]),
    ]
}

fn iterate(x: [u64; 4], n: u64) -> [u64; 4] {
    let mut h = x;
    for _ in 0..n {
        h = toy_hash(h);
    }
    h
}

fn inputs(final_hash: [u64; 4], counter: u64) -> Vec<u64> {
    let mut pis = INITIAL.to_vec();
    pis.extend_from_slice(&final_hash);
    pis.push(counter);
    pis.extend_from_slice(&verifier_data());
    pis
}

/// Runs the verifier with the toy hash and a proof system that accepts;
/// returns the final action and the number of hash requests.
fn run(pis: &[u64]) -> (VerifierAction, u64) {
    let (mut v, mut a) = match ChainVerifier::new(&pis.to_vec(), &verifier_data()) {
        Ok(x) => x,
        Err(error) => return (VerifierAction::Reject { error }, 0),
    };
    let mut hashes = 0;
    loop {
        let event = match &a {
            VerifierAction::Hash { input } => {
                hashes += 1;
                VerifierEvent::Hashed { output: toy_hash(*input) }
            }
            VerifierAction::VerifyProof => VerifierEvent::ProofAccepted,
            _ => return (a, hashes),
        };
        assert!(v.awaits(&event));
        a = v.step(event);
    }
}

#[test]
fn accepts_three_hashes() {
    let (a, hashes) = run(&inputs(iterate(INITIAL, 3), 3));
    assert!(matches!(a, VerifierAction::Accept));
    assert_eq!(hashes, 3);
}

#[test]
fn accepts_every_tested_length() {
    for counter in [1u64, 2, 3, 5, 9, 17, 33, 65] {
        let (a, hashes) = run(&inputs(iterate(INITIAL, counter), counter));
        assert!(matches!(a, VerifierAction::Accept));
        assert_eq!(hashes, counter);
    }
}

#[test]
fn altered_final_hash_is_rejected() {
    let mut h = iterate(INITIAL, 3);
    h[2] = h[2].wrapping_add(1);
    let (a, _) = run(&inputs(h, 3));
    assert!(matches!(
        a,
        VerifierAction::Reject {
            error: HashChainError::Verification {
                at_layer: None,
                check: VerificationCheck::HashRecomputation
            }
        }
    ));
}

#[test]
fn wrong_counter_is_rejected_by_recomputation() {
    let (a, hashes) = run(&inputs(iterate(INITIAL, 3), 2));
    assert_eq!(hashes, 2);
    assert!(matches!(
        a,
        VerifierAction::Reject {
            error: HashChainError::Verification { check: VerificationCheck::HashRecomputation, .. }
        }
    ));
}

#[test]
fn zero_counter_compares_directly() {
    let (a, hashes) = run(&inputs(INITIAL, 0));
    assert!(matches!(a, VerifierAction::Accept));
    assert_eq!(hashes, 0);
    let (a, _) = run(&inputs(toy_hash(INITIAL), 0));
    assert!(matches!(a, VerifierAction::Reject { .. }));
}

#[test]
fn foreign_verifier_data_is_rejected() {
    let mut pis = inputs(iterate(INITIAL, 1), 1);
    let last = pis.len() - 1;
    pis[last] = 0;
    let r = ChainVerifier::new(&pis, &verifier_data());
    assert!(matches!(
        r,
        Err(HashChainError::Verification { at_layer: None, check: VerificationCheck::VerifierData })
    ));
}

#[test]
fn short_inputs_are_layout_error() {
    let r = ChainVerifier::new(&vec![1, 2, 3], &verifier_data());
    assert!(matches!(r, Err(HashChainError::Layout { needed: 9, found: 3 })));
}

#[test]
fn rejected_proof_is_verification_failure() {
    let pis = inputs(iterate(INITIAL, 1), 1);
    let (mut v, a) = ChainVerifier::new(&pis, &verifier_data()).unwrap();
    let a = match a {
        VerifierAction::Hash { input } => v.step(VerifierEvent::Hashed { output: toy_hash(input) }),
        _ => panic!("expected a hash request"),
    };
    assert!(matches!(a, VerifierAction::VerifyProof));
    let a = v.step(VerifierEvent::ProofRejected { cause: anyhow::Error::msg("invalid") });
    assert!(matches!(
        a,
        VerifierAction::Reject {
            error: HashChainError::Verification { check: VerificationCheck::Proof { .. }, .. }
        }
    ));
    assert!(v.phase == VerifierPhase::Rejected);
}

use hash_chain::{
    DriverPhase, HashChainError, LayerAction, LayerDriver, LayerEvent, VerificationCheck,
};

const INITIAL: [u64; 4] = [0, 1, 2, 3];

fn verifier_data() -> Vec<u64> {
    vec![11, 12, 13, 14, 15]
}

fn toy_hash(x: [u64; 4]) -> [u64; 4] {
    [
        x[1].wrapping_mul(31).wrapping_add(x[0]) ^ 7,
        x[2].wrapping_mul(17).wrapping_add(x[1]),
        x[3].wrapping_mul(13).wrapping_add(x[2]) ^ 3,
        x[0].wrapping_mul(5).wrapping_add(x[3]),
    ]
}

/// The public inputs an honest prover exposes at `layer`.
fn honest_inputs(layer: u64, vd: &[u64]) -> Vec<u64> {
    let mut h = INITIAL;
    for _ in 0..=layer {
        h = toy_hash(h);
    }
    let mut pis = INITIAL.to_vec();
    pis.extend_from_slice(&h);
    pis.push(layer + 1);
    pis.extend_from_slice(vd);
    pis
}

/// Runs the driver against an honest prover; returns the actions taken and
/// the public inputs of the final proof.
fn run_honest(steps: u64) -> (Vec<LayerAction>, Vec<u64>) {
    let (mut d, mut a) = LayerDriver::new(steps, INITIAL, verifier_data());
    let mut actions = Vec::new();
    let mut last = Vec::new();
    loop {
        let event = match &a {
            LayerAction::ProveBase { .. } => {
                last = honest_inputs(0, &verifier_data());
                LayerEvent::Proved { public_inputs: last.clone() }
            }
            LayerAction::ProveNext { layer } => {
                last = honest_inputs(*layer, &verifier_data());
                LayerEvent::Proved { public_inputs: last.clone() }
            }
            LayerAction::SelfVerify { .. } => LayerEvent::Verified,
            LayerAction::Finish => {
                actions.push(a);
                break;
            }
            LayerAction::Abort { .. } => panic!("honest chain aborted"),
        };
        assert!(d.awaits(&event));
        actions.push(a);
        a = d.step(event);
    }
    assert!(d.phase == DriverPhase::Finished);
    (actions, last)
}

fn proves(actions: &[LayerAction]) -> usize {
    actions
        .iter()
        .filter(|a| matches!(a, LayerAction::ProveBase { .. } | LayerAction::ProveNext { .. }))
        .count()
}

#[test]
fn zero_steps_is_one_base_layer() {
    let (actions, last) = run_honest(0);
    assert_eq!(actions.len(), 3);
    assert!(matches!(actions[0], LayerAction::ProveBase { initial_hash } if initial_hash == INITIAL));
    assert!(matches!(actions[1], LayerAction::SelfVerify { layer: 0 }));
    assert!(matches!(actions[2], LayerAction::Finish));
    assert_eq!(last[8], 1);
}

#[test]
fn two_steps_give_counter_three() {
    let (actions, last) = run_honest(2);
    assert_eq!(proves(&actions), 3);
    assert!(matches!(actions[2], LayerAction::ProveNext { layer: 1 }));
    assert!(matches!(actions[4], LayerAction::ProveNext { layer: 2 }));
    assert_eq!(last[8], 3);
    let h = toy_hash(toy_hash(toy_hash(INITIAL)));
    assert_eq!(&last[4..8], &h[..]);
}

#[test]
fn counter_is_steps_plus_one() {
    for steps in [0u64, 1, 2, 4, 8, 16, 32, 64] {
        let (actions, last) = run_honest(steps);
        assert_eq!(proves(&actions) as u64, steps + 1);
        assert_eq!(last[8], steps + 1);
        assert_eq!(&last[0..4], &INITIAL[..]);
    }
}

#[test]
fn foreign_verifier_data_stops_the_chain() {
    let (mut d, _) = LayerDriver::new(2, INITIAL, verifier_data());
    d.step(LayerEvent::Proved { public_inputs: honest_inputs(0, &verifier_data()) });
    let a = d.step(LayerEvent::Verified);
    assert!(matches!(a, LayerAction::ProveNext { layer: 1 }));
    let foreign = vec![11, 12, 13, 14, 99];
    let a = d.step(LayerEvent::Proved { public_inputs: honest_inputs(1, &foreign) });
    assert!(matches!(
        a,
        LayerAction::Abort {
            error: HashChainError::Verification {
                at_layer: Some(1),
                check: VerificationCheck::VerifierData
            }
        }
    ));
    assert!(d.phase == DriverPhase::Aborted);
}

#[test]
fn refused_witness_is_witness_error() {
    let (mut d, _) = LayerDriver::new(1, INITIAL, verifier_data());
    let a = d.step(LayerEvent::ProveFailed { cause: anyhow::Error::msg("constraint failed") });
    match a {
        LayerAction::Abort { error: HashChainError::Witness { layer, cause } } => {
            assert_eq!(layer, 0);
            assert_eq!(cause.to_string(), "constraint failed");
        }
        _ => panic!("expected a witness error"),
    }
}

#[test]
fn wrong_counter_is_rejected() {
    let (mut d, _) = LayerDriver::new(1, INITIAL, verifier_data());
    let mut pis = honest_inputs(0, &verifier_data());
    pis[8] = 2;
    let a = d.step(LayerEvent::Proved { public_inputs: pis });
    assert!(matches!(
        a,
        LayerAction::Abort {
            error: HashChainError::Verification { at_layer: Some(0), check: VerificationCheck::Counter }
        }
    ));
}

#[test]
fn changed_initial_hash_is_rejected() {
    let (mut d, _) = LayerDriver::new(1, INITIAL, verifier_data());
    let mut pis = honest_inputs(0, &verifier_data());
    pis[0] = 42;
    let a = d.step(LayerEvent::Proved { public_inputs: pis });
    assert!(matches!(
        a,
        LayerAction::Abort {
            error: HashChainError::Verification {
                at_layer: Some(0),
                check: VerificationCheck::InitialHash
            }
        }
    ));
}

#[test]
fn short_public_inputs_are_layout_error() {
    let (mut d, _) = LayerDriver::new(1, INITIAL, verifier_data());
    let a = d.step(LayerEvent::Proved { public_inputs: vec![0, 1, 2, 3] });
    assert!(matches!(
        a,
        LayerAction::Abort { error: HashChainError::Layout { needed: 9, found: 4 } }
    ));
}

#[test]
fn failed_self_check_is_verification_failure() {
    let (mut d, _) = LayerDriver::new(1, INITIAL, verifier_data());
    d.step(LayerEvent::Proved { public_inputs: honest_inputs(0, &verifier_data()) });
    assert!(!d.awaits(&LayerEvent::Proved { public_inputs: Vec::new() }));
    assert!(d.awaits(&LayerEvent::Verified));
    let a = d.step(LayerEvent::VerifyFailed { cause: anyhow::Error::msg("bad proof") });
    assert!(matches!(
        a,
        LayerAction::Abort {
            error: HashChainError::Verification {
                at_layer: Some(0),
                check: VerificationCheck::Proof { .. }
            }
        }
    ));
}

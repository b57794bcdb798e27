use vstd::arithmetic::div_mod::lemma_add_mod_noop;
use vstd::prelude::*;

use crate::error::{HashChainError, VerificationCheck};
use crate::gadget::{chain_holds, layer_counter, layer_holds, lemma_layers_form_chain};
use crate::layout::{same_digest, same_values, ChainInputs, FIELD_ORDER, VERIFIER_DATA_OFFSET};

verus! {

/// What the prover must do next.
#[derive(Debug)]
pub enum LayerAction {
    /// Prove the base layer: condition false, a placeholder predecessor whose
    /// public inputs hold `initial_hash`.
    ProveBase { initial_hash: [u64; 4] },
    /// Prove layer `layer`: condition true, the last proof as predecessor and
    /// the circuit's own verifier data.
    ProveNext { layer: u64 },
    /// Verify the proof of layer `layer` just produced.
    SelfVerify { layer: u64 },
    /// The chain is complete: the last proof is the result.
    Finish,
    /// Stop the chain with this error.
    Abort { error: HashChainError },
}

/// What came of the last action.
#[derive(Debug)]
pub enum LayerEvent {
    /// The prover produced a proof with these public inputs.
    Proved { public_inputs: Vec<u64> },
    /// The prover refused the witness.
    ProveFailed { cause: anyhow::Error },
    /// The proof system accepted the proof just produced.
    Verified,
    /// The proof system rejected the proof just produced.
    VerifyFailed { cause: anyhow::Error },
}

/// Where the driver stands in the current layer.
#[derive(Clone, Copy, Debug, PartialEq, Eq, Structural)]
pub enum DriverPhase {
    /// Waiting for the proof of the current layer.
    Proving,
    /// Waiting for the self-check of the current layer's proof.
    Verifying,
    /// The chain is complete.
    Finished,
    /// The chain was stopped.
    Aborted,
}

/// Decides, layer by layer, what the prover does to build a chain of
/// `steps + 1` proofs over one compiled circuit.
pub struct LayerDriver {
    /// Recursive layers after the base layer.
    pub steps: u64,
    pub initial_hash: [u64; 4],
    /// The circuit's verifier data, as public-input values.
    pub verifier_data: Vec<u64>,
    /// The layer being proved or checked.
    pub layer: u64,
    pub phase: DriverPhase,
    /// The public inputs of the last proof that passed the layout checks.
    pub last: Option<ChainInputs>,
}

impl LayerEvent {
    /// Whether this event is an outcome of an action returned in `phase`.
    pub open spec fn answers(self, phase: DriverPhase) -> bool {
        match self {
            LayerEvent::Proved { .. } | LayerEvent::ProveFailed { .. } => phase == DriverPhase::Proving,
            LayerEvent::Verified | LayerEvent::VerifyFailed { .. } => phase == DriverPhase::Verifying,
        }
    }
}

impl LayerDriver {
    /// Whether `c` is what layer `layer` of this chain must expose.
    pub open spec fn link_ok(self, c: ChainInputs, layer: int) -> bool {
        &&& c.initial_hash@ == self.initial_hash@
        &&& c.counter == layer_counter(layer)
        &&& c.verifier_data@ == self.verifier_data@
    }

    /// Every proof accepted so far is what its layer must expose, and the
    /// last one is the predecessor of the layer being proved.
    pub open spec fn wf(self) -> bool {
        &&& self.layer <= self.steps
        &&& match self.phase {
            DriverPhase::Proving => if self.layer == 0 {
                self.last is None
            } else {
                self.last is Some && self.link_ok(self.last->0, self.layer - 1)
            },
            DriverPhase::Verifying | DriverPhase::Finished => self.last is Some && self.link_ok(
                self.last->0,
                self.layer as int,
            ),
            DriverPhase::Aborted => true,
        }
        &&& self.phase == DriverPhase::Finished ==> self.layer == self.steps
    }

    /// The error, if any, that the public inputs of a freshly proved layer
    /// give: they must follow the layout, carry the circuit's own verifier
    /// data, keep the initial hash and expose the layer's counter.
    pub open spec fn link_error(self, pis: Seq<u64>) -> Option<HashChainError> {
        if pis.len() < VERIFIER_DATA_OFFSET {
            Some(HashChainError::Layout { needed: VERIFIER_DATA_OFFSET, found: pis.len() as usize })
        } else if pis.subrange(9, pis.len() as int) != self.verifier_data@ {
            Some(
                HashChainError::Verification {
                    at_layer: Some(self.layer),
                    check: VerificationCheck::VerifierData,
                },
            )
        } else if pis.subrange(0, 4) != self.initial_hash@ {
            Some(
                HashChainError::Verification {
                    at_layer: Some(self.layer),
                    check: VerificationCheck::InitialHash,
                },
            )
        } else if pis[8] != layer_counter(self.layer as int) {
            Some(
                HashChainError::Verification {
                    at_layer: Some(self.layer),
                    check: VerificationCheck::Counter,
                },
            )
        } else {
            None
        }
    }

    /// Starts a chain of `steps + 1` layers from `initial_hash`, over a circuit
    /// whose verifier data is `verifier_data`; the first action proves the
    /// base layer.
    pub fn new(steps: u64, initial_hash: [u64; 4], verifier_data: Vec<u64>) -> (r: (
        LayerDriver,
        LayerAction,
    ))
        ensures
            r.0.wf(),
            r.0.steps == steps,
            r.0.initial_hash == initial_hash,
            r.0.verifier_data == verifier_data,
            r.0.layer == 0,
            r.0.phase == DriverPhase::Proving,
            r.1 == (LayerAction::ProveBase { initial_hash }),
    {
        let d = LayerDriver {
            steps,
            initial_hash,
            verifier_data,
            layer: 0,
            phase: DriverPhase::Proving,
            last: None,
        };
        (d, LayerAction::ProveBase { initial_hash })
    }

    /// Whether `event` is an outcome of the action last returned.
    pub fn awaits(&self, event: &LayerEvent) -> (r: bool)
        ensures
            r == event.answers(self.phase),
    {
        match event {
            LayerEvent::Proved { .. } | LayerEvent::ProveFailed { .. } => self.phase
                == DriverPhase::Proving,
            LayerEvent::Verified | LayerEvent::VerifyFailed { .. } => self.phase
                == DriverPhase::Verifying,
        }
    }

    fn check_link(&self, pis: &Vec<u64>) -> (r: Result<ChainInputs, HashChainError>)
        ensures
            match r {
                Ok(c) => self.link_error(pis@) is None && c.read_from(pis@),
                Err(e) => self.link_error(pis@) == Some(e),
            },
    {
        let c = match ChainInputs::from_public_inputs(pis) {
            Ok(c) => c,
            Err(e) => return Err(e),
        };
        if !same_values(&c.verifier_data, &self.verifier_data) {
            return Err(
                HashChainError::Verification {
                    at_layer: Some(self.layer),
                    check: VerificationCheck::VerifierData,
                },
            );
        }
        if !same_digest(&c.initial_hash, &self.initial_hash) {
            return Err(
                HashChainError::Verification {
                    at_layer: Some(self.layer),
                    check: VerificationCheck::InitialHash,
                },
            );
        }
        let expected = (self.layer % FIELD_ORDER + 1) % FIELD_ORDER;
        proof {
            lemma_add_mod_noop(self.layer as int, 1, FIELD_ORDER as int);
        }
        if c.counter != expected {
            return Err(
                HashChainError::Verification {
                    at_layer: Some(self.layer),
                    check: VerificationCheck::Counter,
                },
            );
        }
        Ok(c)
    }

    /// Takes the outcome of the last action and returns the next one.
    pub fn step(&mut self, event: LayerEvent) -> (a: LayerAction)
        requires
            old(self).wf(),
            event.answers(old(self).phase),
        ensures
            final(self).wf(),
            final(self).steps == old(self).steps,
            final(self).initial_hash == old(self).initial_hash,
            final(self).verifier_data == old(self).verifier_data,
            !(event is Verified) ==> final(self).layer == old(self).layer,
            !(event is Proved) ==> final(self).last == old(self).last,
            match event {
                LayerEvent::Proved { public_inputs } => match old(self).link_error(
                    public_inputs@,
                ) {
                    Some(e) => a == (LayerAction::Abort { error: e }) && final(self).phase
                        == DriverPhase::Aborted,
                    None => a == (LayerAction::SelfVerify { layer: old(self).layer })
                        && final(self).phase == DriverPhase::Verifying
                        && final(self).layer == old(self).layer
                        && final(self).last is Some
                        && final(self).last->0.read_from(public_inputs@),
                },
                LayerEvent::ProveFailed { cause } => a == (LayerAction::Abort {
                    error: HashChainError::Witness { layer: old(self).layer, cause },
                }) && final(self).phase == DriverPhase::Aborted,
                LayerEvent::Verified => if old(self).layer == old(self).steps {
                    a == LayerAction::Finish && final(self).phase == DriverPhase::Finished
                        && final(self).layer == old(self).layer
                } else {
                    a == (LayerAction::ProveNext { layer: (old(self).layer + 1) as u64 })
                        && final(self).phase == DriverPhase::Proving && final(self).layer
                        == old(self).layer + 1
                },
                LayerEvent::VerifyFailed { cause } => a == (LayerAction::Abort {
                    error: HashChainError::Verification {
                        at_layer: Some(old(self).layer),
                        check: VerificationCheck::Proof { cause },
                    },
                }) && final(self).phase == DriverPhase::Aborted,
            },
    {
        match event {
            LayerEvent::Proved { public_inputs } => match self.check_link(&public_inputs) {
                Ok(c) => {
                    self.last = Some(c);
                    self.phase = DriverPhase::Verifying;
                    LayerAction::SelfVerify { layer: self.layer }
                },
                Err(error) => {
                    self.phase = DriverPhase::Aborted;
                    LayerAction::Abort { error }
                },
            },
            LayerEvent::ProveFailed { cause } => {
                self.phase = DriverPhase::Aborted;
                LayerAction::Abort { error: HashChainError::Witness { layer: self.layer, cause } }
            },
            LayerEvent::Verified => {
                if self.layer == self.steps {
                    self.phase = DriverPhase::Finished;
                    LayerAction::Finish
                } else {
                    self.layer = self.layer + 1;
                    self.phase = DriverPhase::Proving;
                    LayerAction::ProveNext { layer: self.layer }
                }
            },
            LayerEvent::VerifyFailed { cause } => {
                self.phase = DriverPhase::Aborted;
                LayerAction::Abort {
                    error: HashChainError::Verification {
                        at_layer: Some(self.layer),
                        check: VerificationCheck::Proof { cause },
                    },
                }
            },
        }
    }
}

/// A finished chain ends in a proof whose counter is `steps + 1` (in the
/// field) and which carries the chain's initial hash and the circuit's own
/// verifier data.
pub proof fn lemma_finished_chain(d: LayerDriver)
    requires
        d.wf(),
        d.phase == DriverPhase::Finished,
    ensures
        d.last is Some,
        d.last->0.counter == layer_counter(d.steps as int),
        d.steps + 1 < FIELD_ORDER ==> d.last->0.counter == d.steps + 1,
        d.last->0.initial_hash@ == d.initial_hash@,
        d.last->0.verifier_data@ == d.verifier_data@,
{
    if d.steps + 1 < FIELD_ORDER {
        assert((d.steps + 1) as int % (FIELD_ORDER as int) == d.steps + 1);
    }
}

/// A proof that exposes verifier data other than the circuit's own never
/// joins the chain: the step on it stops the chain at the verifier-data
/// check. So every predecessor handed to the prover carries the circuit's own
/// verifier data.
pub proof fn lemma_foreign_verifier_data_rejected(d: LayerDriver, pis: Seq<u64>)
    requires
        d.wf(),
        pis.len() >= VERIFIER_DATA_OFFSET,
        pis.subrange(9, pis.len() as int) != d.verifier_data@,
    ensures
        d.link_error(pis) == Some(
            HashChainError::Verification {
                at_layer: Some(d.layer),
                check: VerificationCheck::VerifierData,
            },
        ),
        d.phase == DriverPhase::Proving && d.layer > 0 ==> d.last->0.verifier_data@
            == d.verifier_data@,
{
}

/// The driver's checks never stop an honest chain: a layer of a chain that
/// meets the circuit's constraints, started from the driver's initial hash and
/// exposing the circuit's own verifier data, passes them.
pub proof fn lemma_honest_layer_passes(
    d: LayerDriver,
    placeholder: Seq<u64>,
    links: Seq<Seq<u64>>,
    hash_ins: Seq<Seq<u64>>,
)
    requires
        chain_holds(placeholder, links, hash_ins),
        d.layer < links.len(),
        placeholder.len() >= VERIFIER_DATA_OFFSET,
        placeholder.subrange(0, 4) == d.initial_hash@,
        links[d.layer as int].subrange(9, links[d.layer as int].len() as int) == d.verifier_data@,
    ensures
        d.link_error(links[d.layer as int]) is None,
{
    lemma_layers_form_chain(placeholder, links, hash_ins);
    let k = d.layer as int;
    let pred = if k == 0 {
        placeholder
    } else {
        links[k - 1]
    };
    assert(layer_holds(k > 0, pred, links[k], hash_ins[k]));
    assert(links[k].subrange(0, 4) == placeholder.subrange(0, 4));
}

} // verus!

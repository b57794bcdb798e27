use vstd::prelude::*;

use crate::error::{HashChainError, VerificationCheck};
use crate::layout::{same_digest, same_values, ChainInputs, VERIFIER_DATA_OFFSET};

verus! {

/// What the verifying party must do next.
#[derive(Debug)]
pub enum VerifierAction {
    /// Apply the hash function once to `input` and report the digest.
    Hash { input: [u64; 4] },
    /// Verify the proof with the proof system.
    VerifyProof,
    /// The proof is accepted.
    Accept,
    /// The proof is rejected for this reason.
    Reject { error: HashChainError },
}

/// What came of the last action.
#[derive(Debug)]
pub enum VerifierEvent {
    /// The hash function returned `output`.
    Hashed { output: [u64; 4] },
    /// The proof system accepted the proof.
    ProofAccepted,
    /// The proof system rejected the proof.
    ProofRejected { cause: anyhow::Error },
}

/// Where the verifier stands.
#[derive(Clone, Copy, Debug, PartialEq, Eq, Structural)]
pub enum VerifierPhase {
    /// Recomputing the chain outside the circuit.
    Hashing,
    /// Waiting for the proof system's verdict.
    Proving,
    Accepted,
    Rejected,
}

/// Checks a final proof of a chain: reads its public inputs, recomputes the
/// final hash by hashing the initial hash `counter` times, and has the proof
/// itself verified.
pub struct ChainVerifier {
    pub inputs: ChainInputs,
    /// The digest the next hash request starts from.
    pub current: [u64; 4],
    /// Hash applications done so far.
    pub applied: u64,
    pub phase: VerifierPhase,
    /// Each hash request so far, in order.
    pub requests: Ghost<Seq<Seq<u64>>>,
    /// The digest answered to each request.
    pub answers: Ghost<Seq<Seq<u64>>>,
}

impl VerifierEvent {
    /// Whether this event is an outcome of an action returned in `phase`.
    pub open spec fn answers(self, phase: VerifierPhase) -> bool {
        match self {
            VerifierEvent::Hashed { .. } => phase == VerifierPhase::Hashing,
            VerifierEvent::ProofAccepted | VerifierEvent::ProofRejected { .. } => phase
                == VerifierPhase::Proving,
        }
    }
}

/// Whether `answers` is the chain that starts from `start`: each request is the
/// answer to the one before, the first being `start`.
pub open spec fn is_chain(start: Seq<u64>, requests: Seq<Seq<u64>>, answers: Seq<Seq<u64>>) -> bool {
    &&& requests.len() == answers.len()
    &&& forall|i: int|
        0 <= i < requests.len() ==> #[trigger] requests[i] == if i == 0 {
            start
        } else {
            answers[i - 1]
        }
}

/// The end of a chain of answers from `start`.
pub open spec fn chain_tip(start: Seq<u64>, answers: Seq<Seq<u64>>) -> Seq<u64> {
    if answers.len() == 0 {
        start
    } else {
        answers.last()
    }
}

impl ChainVerifier {
    /// The requests so far form the chain from the initial hash, the current
    /// digest is its tip, and a verifier past the recomputation has matched
    /// the final hash after exactly `counter` hashes.
    pub open spec fn wf(self) -> bool {
        &&& is_chain(self.inputs.initial_hash@, self.requests@, self.answers@)
        &&& self.answers@.len() == self.applied
        &&& self.current@ == chain_tip(self.inputs.initial_hash@, self.answers@)
        &&& self.applied <= self.inputs.counter
        &&& self.phase == VerifierPhase::Hashing ==> self.applied < self.inputs.counter
        &&& (self.phase == VerifierPhase::Proving || self.phase == VerifierPhase::Accepted) ==> {
            &&& self.applied == self.inputs.counter
            &&& self.current@ == self.inputs.current_hash@
        }
    }

    /// Starts checking a proof with public inputs `public_inputs` against a
    /// circuit whose verifier data is `verifier_data`. Fails on a layout error
    /// or on foreign verifier data; otherwise the first action is the first
    /// hash request, or the comparison itself when the counter is zero.
    pub fn new(public_inputs: &Vec<u64>, verifier_data: &Vec<u64>) -> (r: Result<
        (ChainVerifier, VerifierAction),
        HashChainError,
    >)
        ensures
            public_inputs@.len() < VERIFIER_DATA_OFFSET ==> r == Err::<
                (ChainVerifier, VerifierAction),
                HashChainError,
            >(HashChainError::Layout { needed: VERIFIER_DATA_OFFSET, found: public_inputs@.len() as usize }),
            public_inputs@.len() >= VERIFIER_DATA_OFFSET && public_inputs@.subrange(
                9,
                public_inputs@.len() as int,
            ) != verifier_data@ ==> r == Err::<(ChainVerifier, VerifierAction), HashChainError>(
                HashChainError::Verification { at_layer: None, check: VerificationCheck::VerifierData },
            ),
            r is Ok <==> (public_inputs@.len() >= 9 && public_inputs@.subrange(
                9,
                public_inputs@.len() as int,
            ) == verifier_data@),
            r matches Ok((v, a)) ==> {
                &&& v.wf()
                &&& v.inputs.read_from(public_inputs@)
                &&& v.applied == 0
                &&& if v.inputs.counter > 0 {
                    v.phase == VerifierPhase::Hashing && a == (VerifierAction::Hash {
                        input: v.inputs.initial_hash,
                    })
                } else if v.inputs.initial_hash@ == v.inputs.current_hash@ {
                    v.phase == VerifierPhase::Proving && a == VerifierAction::VerifyProof
                } else {
                    v.phase == VerifierPhase::Rejected && a == (VerifierAction::Reject {
                        error: HashChainError::Verification {
                            at_layer: None,
                            check: VerificationCheck::HashRecomputation,
                        },
                    })
                }
            },
    {
        let inputs = match ChainInputs::from_public_inputs(public_inputs) {
            Ok(c) => c,
            Err(e) => return Err(e),
        };
        if !same_values(&inputs.verifier_data, verifier_data) {
            return Err(
                HashChainError::Verification {
                    at_layer: None,
                    check: VerificationCheck::VerifierData,
                },
            );
        }
        let current = inputs.initial_hash;
        let mut v = ChainVerifier {
            inputs,
            current,
            applied: 0,
            phase: VerifierPhase::Hashing,
            requests: Ghost(Seq::empty()),
            answers: Ghost(Seq::empty()),
        };
        let a = v.after_hashing();
        Ok((v, a))
    }

    /// Ends the recomputation when `counter` hashes were applied, or asks for
    /// the next one.
    fn after_hashing(&mut self) -> (a: VerifierAction)
        requires
            old(self).phase == VerifierPhase::Hashing,
            is_chain(old(self).inputs.initial_hash@, old(self).requests@, old(self).answers@),
            old(self).answers@.len() == old(self).applied,
            old(self).current@ == chain_tip(old(self).inputs.initial_hash@, old(self).answers@),
            old(self).applied <= old(self).inputs.counter,
        ensures
            final(self).wf(),
            final(self).inputs == old(self).inputs,
            final(self).current == old(self).current,
            final(self).applied == old(self).applied,
            final(self).requests == old(self).requests,
            final(self).answers == old(self).answers,
            if old(self).applied < old(self).inputs.counter {
                final(self).phase == VerifierPhase::Hashing && a == (VerifierAction::Hash {
                    input: old(self).current,
                })
            } else if old(self).current@ == old(self).inputs.current_hash@ {
                final(self).phase == VerifierPhase::Proving && a == VerifierAction::VerifyProof
            } else {
                final(self).phase == VerifierPhase::Rejected && a == (VerifierAction::Reject {
                    error: HashChainError::Verification {
                        at_layer: None,
                        check: VerificationCheck::HashRecomputation,
                    },
                })
            },
    {
        if self.applied < self.inputs.counter {
            VerifierAction::Hash { input: self.current }
        } else if same_digest(&self.current, &self.inputs.current_hash) {
            self.phase = VerifierPhase::Proving;
            VerifierAction::VerifyProof
        } else {
            self.phase = VerifierPhase::Rejected;
            VerifierAction::Reject {
                error: HashChainError::Verification {
                    at_layer: None,
                    check: VerificationCheck::HashRecomputation,
                },
            }
        }
    }

    /// Whether `event` is an outcome of the action last returned.
    pub fn awaits(&self, event: &VerifierEvent) -> (r: bool)
        ensures
            r == event.answers(self.phase),
    {
        match event {
            VerifierEvent::Hashed { .. } => self.phase == VerifierPhase::Hashing,
            VerifierEvent::ProofAccepted | VerifierEvent::ProofRejected { .. } => self.phase
                == VerifierPhase::Proving,
        }
    }

    /// Takes the outcome of the last action and returns the next one.
    pub fn step(&mut self, event: VerifierEvent) -> (a: VerifierAction)
        requires
            old(self).wf(),
            event.answers(old(self).phase),
        ensures
            final(self).wf(),
            final(self).inputs == old(self).inputs,
            !(event is Hashed) ==> final(self).applied == old(self).applied
                && final(self).requests == old(self).requests
                && final(self).answers == old(self).answers,
            match event {
                VerifierEvent::Hashed { output } => {
                    &&& final(self).requests@ == old(self).requests@.push(old(self).current@)
                    &&& final(self).answers@ == old(self).answers@.push(output@)
                    &&& final(self).applied == old(self).applied + 1
                    &&& final(self).current == output
                    &&& if final(self).applied < old(self).inputs.counter {
                        final(self).phase == VerifierPhase::Hashing && a == (VerifierAction::Hash {
                            input: output,
                        })
                    } else if output@ == old(self).inputs.current_hash@ {
                        final(self).phase == VerifierPhase::Proving && a
                            == VerifierAction::VerifyProof
                    } else {
                        final(self).phase == VerifierPhase::Rejected && a == (
                        VerifierAction::Reject {
                            error: HashChainError::Verification {
                                at_layer: None,
                                check: VerificationCheck::HashRecomputation,
                            },
                        })
                    }
                },
                VerifierEvent::ProofAccepted => final(self).phase == VerifierPhase::Accepted && a
                    == VerifierAction::Accept,
                VerifierEvent::ProofRejected { cause } => final(self).phase
                    == VerifierPhase::Rejected && a == (VerifierAction::Reject {
                    error: HashChainError::Verification {
                        at_layer: None,
                        check: VerificationCheck::Proof { cause },
                    },
                }),
            },
    {
        match event {
            VerifierEvent::Hashed { output } => {
                let ghost request = self.current@;
                proof {
                    self.requests@ = self.requests@.push(request);
                    self.answers@ = self.answers@.push(output@);
                }
                self.current = output;
                self.applied = self.applied + 1;
                self.after_hashing()
            },
            VerifierEvent::ProofAccepted => {
                self.phase = VerifierPhase::Accepted;
                VerifierAction::Accept
            },
            VerifierEvent::ProofRejected { cause } => {
                self.phase = VerifierPhase::Rejected;
                VerifierAction::Reject {
                    error: HashChainError::Verification {
                        at_layer: None,
                        check: VerificationCheck::Proof { cause },
                    },
                }
            },
        }
    }
}

/// An accepted proof's final hash is the initial hash put through the hash
/// function `counter` times: each request is the previous answer, there are
/// `counter` of them, and the last answer is the final hash.
pub proof fn lemma_accepted_tip(v: ChainVerifier)
    requires
        v.wf(),
        v.phase == VerifierPhase::Accepted,
    ensures
        is_chain(v.inputs.initial_hash@, v.requests@, v.answers@),
        v.answers@.len() == v.inputs.counter,
        v.inputs.current_hash@ == chain_tip(v.inputs.initial_hash@, v.answers@),
{
}

proof fn lemma_same_answers(
    start: Seq<u64>,
    ra: Seq<Seq<u64>>,
    aa: Seq<Seq<u64>>,
    rb: Seq<Seq<u64>>,
    ab: Seq<Seq<u64>>,
    n: nat,
)
    requires
        is_chain(start, ra, aa),
        is_chain(start, rb, ab),
        n <= aa.len(),
        n <= ab.len(),
        forall|i: int| 0 <= i < n && ra[i] == rb[i] ==> aa[i] == ab[i],
    ensures
        forall|i: int| 0 <= i < n ==> ra[i] == rb[i] && aa[i] == ab[i],
    decreases n,
{
    if n > 0 {
        lemma_same_answers(start, ra, aa, rb, ab, (n - 1) as nat);
        let j = n - 1;
        assert(ra[j] == rb[j]);
    }
}

/// The recomputation binds the final hash: two proofs with the same initial
/// hash and counter, checked with the same hash function (equal requests get
/// equal answers), cannot both pass it with different final hashes. So a
/// proof whose final-hash inputs were altered fails.
pub proof fn lemma_final_hash_bound(a: ChainVerifier, b: ChainVerifier)
    requires
        a.wf(),
        b.wf(),
        a.phase == VerifierPhase::Proving || a.phase == VerifierPhase::Accepted,
        b.phase == VerifierPhase::Proving || b.phase == VerifierPhase::Accepted,
        a.inputs.initial_hash@ == b.inputs.initial_hash@,
        a.inputs.counter == b.inputs.counter,
        forall|i: int|
            0 <= i < a.inputs.counter && a.requests@[i] == b.requests@[i] ==> a.answers@[i]
                == b.answers@[i],
    ensures
        a.inputs.current_hash@ == b.inputs.current_hash@,
{
    let n = a.inputs.counter as nat;
    lemma_same_answers(a.inputs.initial_hash@, a.requests@, a.answers@, b.requests@, b.answers@, n);
    if n > 0 {
        assert(a.answers@.last() == b.answers@.last());
    }
}

} // verus!

use vstd::prelude::*;

use crate::error::HashChainError;

verus! {

/// Order of the Goldilocks field, in which every public input lives.
pub const FIELD_ORDER: u64 = 0xFFFF_FFFF_0000_0001;

/// Number of field elements in a digest.
pub const DIGEST_LEN: usize = 4;

/// Offset of the initial hash in a proof's public inputs.
pub const INITIAL_HASH_OFFSET: usize = 0;

/// Offset of the current (after the last layer: final) hash.
pub const CURRENT_HASH_OFFSET: usize = 4;

/// Offset of the step counter.
pub const COUNTER_OFFSET: usize = 8;

/// Offset of the verifier data; it runs to the end of the public inputs.
pub const VERIFIER_DATA_OFFSET: usize = 9;

/// The public inputs of one proof of the chain, read from the fixed layout.
#[derive(Debug)]
pub struct ChainInputs {
    pub initial_hash: [u64; 4],
    pub current_hash: [u64; 4],
    pub counter: u64,
    pub verifier_data: Vec<u64>,
}

impl ChainInputs {
    /// The public-input vector that holds these values.
    pub open spec fn encoding(self) -> Seq<u64> {
        self.initial_hash@ + self.current_hash@ + seq![self.counter] + self.verifier_data@
    }

    /// Whether these values are the ones that `pis` holds at the layout's offsets.
    pub open spec fn read_from(self, pis: Seq<u64>) -> bool {
        &&& pis.len() >= VERIFIER_DATA_OFFSET
        &&& self.initial_hash@ == pis.subrange(0, 4)
        &&& self.current_hash@ == pis.subrange(4, 8)
        &&& self.counter == pis[8]
        &&& self.verifier_data@ == pis.subrange(9, pis.len() as int)
    }

    /// Reads the public inputs of a proof; a vector shorter than the layout is
    /// a layout error.
    pub fn from_public_inputs(pis: &Vec<u64>) -> (r: Result<ChainInputs, HashChainError>)
        ensures
            match r {
                Ok(c) => c.read_from(pis@),
                Err(e) => pis@.len() < VERIFIER_DATA_OFFSET && e == (HashChainError::Layout {
                    needed: VERIFIER_DATA_OFFSET,
                    found: pis@.len() as usize,
                }),
            },
            r is Ok <==> pis@.len() >= VERIFIER_DATA_OFFSET,
    {
        if pis.len() < VERIFIER_DATA_OFFSET {
            return Err(HashChainError::Layout { needed: VERIFIER_DATA_OFFSET, found: pis.len() });
        }
        let initial_hash: [u64; 4] = [pis[0], pis[1], pis[2], pis[3]];
        let current_hash: [u64; 4] = [pis[4], pis[5], pis[6], pis[7]];
        let mut verifier_data: Vec<u64> = Vec::new();
        let mut i: usize = VERIFIER_DATA_OFFSET;
        while i < pis.len()
            invariant
                VERIFIER_DATA_OFFSET <= i <= pis@.len(),
                verifier_data@ == pis@.subrange(VERIFIER_DATA_OFFSET as int, i as int),
            decreases pis@.len() - i,
        {
            verifier_data.push(pis[i]);
            i = i + 1;
        }
        let r = ChainInputs { initial_hash, current_hash, counter: pis[8], verifier_data };
        assert(r.initial_hash@ =~= pis@.subrange(0, 4));
        assert(r.current_hash@ =~= pis@.subrange(4, 8));
        Ok(r)
    }

    /// The public-input vector that holds these values at the layout's offsets.
    pub fn to_public_inputs(&self) -> (r: Vec<u64>)
        requires
            self.verifier_data@.len() + VERIFIER_DATA_OFFSET <= usize::MAX,
        ensures
            r@ == self.encoding(),
    {
        let mut r: Vec<u64> = Vec::new();
        let mut i: usize = 0;
        while i < DIGEST_LEN
            invariant
                i <= DIGEST_LEN,
                r@ == self.initial_hash@.subrange(0, i as int),
            decreases DIGEST_LEN - i,
        {
            r.push(self.initial_hash[i]);
            i = i + 1;
        }
        assert(r@ =~= self.initial_hash@);
        let mut i: usize = 0;
        while i < DIGEST_LEN
            invariant
                i <= DIGEST_LEN,
                r@ == self.initial_hash@ + self.current_hash@.subrange(0, i as int),
            decreases DIGEST_LEN - i,
        {
            r.push(self.current_hash[i]);
            i = i + 1;
        }
        assert(self.current_hash@.subrange(0, 4) =~= self.current_hash@);
        r.push(self.counter);
        let mut i: usize = 0;
        while i < self.verifier_data.len()
            invariant
                i <= self.verifier_data@.len(),
                r@ == self.initial_hash@ + self.current_hash@ + seq![self.counter]
                    + self.verifier_data@.subrange(0, i as int),
            decreases self.verifier_data@.len() - i,
        {
            r.push(self.verifier_data[i]);
            i = i + 1;
        }
        assert(self.verifier_data@.subrange(0, i as int) =~= self.verifier_data@);
        r
    }
}

/// Reading a vector made by `to_public_inputs` gives the values back, and the
/// vector read is the one the values encode.
pub proof fn lemma_layout_round_trip(c: ChainInputs, pis: Seq<u64>)
    ensures
        c.read_from(c.encoding()),
        c.read_from(pis) ==> c.encoding() == pis,
{
    let e = c.encoding();
    assert(e.subrange(0, 4) =~= c.initial_hash@);
    assert(e.subrange(4, 8) =~= c.current_hash@);
    assert(e.subrange(9, e.len() as int) =~= c.verifier_data@);
    if c.read_from(pis) {
        assert(e =~= pis) by {
            assert forall|i: int| 0 <= i < pis.len() implies e[i] == pis[i] by {
                if i < 4 {
                    assert(pis[i] == pis.subrange(0, 4)[i]);
                } else if i < 8 {
                    assert(pis[i] == pis.subrange(4, 8)[i - 4]);
                } else if i >= 9 {
                    assert(pis[i] == pis.subrange(9, pis.len() as int)[i - 9]);
                }
            }
        }
    }
}

/// Whether two digests hold the same elements.
pub fn same_digest(a: &[u64; 4], b: &[u64; 4]) -> (r: bool)
    ensures
        r == (a@ == b@),
{
    let r = a[0] == b[0] && a[1] == b[1] && a[2] == b[2] && a[3] == b[3];
    if r {
        assert(a@ =~= b@);
    }
    r
}

/// Whether two vectors of field elements are equal.
pub fn same_values(a: &Vec<u64>, b: &Vec<u64>) -> (r: bool)
    ensures
        r == (a@ == b@),
{
    if a.len() != b.len() {
        return false;
    }
    let mut i: usize = 0;
    while i < a.len()
        invariant
            i <= a@.len(),
            a@.len() == b@.len(),
            a@.subrange(0, i as int) == b@.subrange(0, i as int),
        decreases a@.len() - i,
    {
        if a[i] != b[i] {
            assert(a@[i as int] != b@[i as int]);
            return false;
        }
        assert(a@.subrange(0, i + 1) =~= a@.subrange(0, i as int).push(a@[i as int]));
        assert(b@.subrange(0, i + 1) =~= b@.subrange(0, i as int).push(b@[i as int]));
        i = i + 1;
    }
    assert(a@ =~= a@.subrange(0, i as int));
    assert(b@ =~= b@.subrange(0, i as int));
    true
}

} // verus!

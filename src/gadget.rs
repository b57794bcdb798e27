use vstd::arithmetic::div_mod::lemma_add_mod_noop;
use vstd::prelude::*;

use crate::chain_verifier::{chain_tip, is_chain};
use crate::layout::{FIELD_ORDER, VERIFIER_DATA_OFFSET};

verus! {

/// The counter a layer exposes, as the circuit constrains it:
/// `condition * predecessor + 1` in the field.
pub open spec fn counter_spec(condition: bool, predecessor: int) -> int {
    if condition {
        (predecessor + 1) % (FIELD_ORDER as int)
    } else {
        1
    }
}

/// The counter that layer `layer` (0 is the base layer) exposes.
pub open spec fn layer_counter(layer: int) -> int {
    (layer + 1) % (FIELD_ORDER as int)
}

/// The constraints of the layer circuit, over the public inputs `pis` of the
/// layer, the public inputs of its predecessor proof and the digest the layer
/// hashes (its output is the current hash, `pis[4..8]`):
/// the initial hash is passed on unchanged; the hashed digest is the
/// predecessor's current hash in the recursive case and the initial hash in
/// the base case; the counter is `condition * predecessor + 1`.
pub open spec fn layer_holds(condition: bool, predecessor: Seq<u64>, pis: Seq<u64>, hash_in: Seq<u64>) -> bool {
    &&& predecessor.len() >= VERIFIER_DATA_OFFSET
    &&& pis.len() >= VERIFIER_DATA_OFFSET
    &&& pis.subrange(0, 4) == predecessor.subrange(0, 4)
    &&& hash_in == if condition {
        predecessor.subrange(4, 8)
    } else {
        pis.subrange(0, 4)
    }
    &&& pis[8] == counter_spec(condition, predecessor[8] as int)
}

/// A chain of layers: the base layer takes `placeholder` as predecessor with
/// the condition false, each later layer the layer before it with the
/// condition true.
pub open spec fn chain_holds(placeholder: Seq<u64>, links: Seq<Seq<u64>>, hash_ins: Seq<Seq<u64>>) -> bool {
    &&& links.len() == hash_ins.len()
    &&& forall|i: int|
        0 <= i < links.len() ==> layer_holds(
            i > 0,
            if i == 0 {
                placeholder
            } else {
                links[i - 1]
            },
            links[i],
            #[trigger] hash_ins[i],
        )
}

/// The current hash that each layer exposes.
pub open spec fn current_hashes(links: Seq<Seq<u64>>) -> Seq<Seq<u64>> {
    links.map_values(|l: Seq<u64>| l.subrange(4, 8))
}

/// The counters the driver expects follow the circuit's recurrence: the base
/// layer exposes 1, and each later layer its predecessor's counter plus one.
pub proof fn lemma_counter_recurrence(layer: nat, predecessor: int)
    ensures
        layer_counter(0) == counter_spec(false, predecessor),
        layer_counter(layer + 1int) == counter_spec(true, layer_counter(layer as int)),
{
    let p = FIELD_ORDER as int;
    lemma_add_mod_noop(layer as int + 1, 1, p);
    assert(1int % p == 1);
    assert(layer_counter(0) == 1);
}

/// Every layer of a chain that meets the circuit's constraints carries the
/// placeholder's initial hash and the counter `layer + 1`; the digests the
/// layers hash form the chain that starts at the initial hash, each hashing
/// the current hash of the layer before. So the last layer's current hash is
/// the tip of that chain, the one the external verifier recomputes.
pub proof fn lemma_layers_form_chain(placeholder: Seq<u64>, links: Seq<Seq<u64>>, hash_ins: Seq<Seq<u64>>)
    requires
        chain_holds(placeholder, links, hash_ins),
        links.len() > 0,
    ensures
        forall|k: int|
            0 <= k < links.len() ==> (#[trigger] links[k]).subrange(0, 4) == placeholder.subrange(0, 4)
                && links[k][8] == layer_counter(k),
        is_chain(placeholder.subrange(0, 4), hash_ins, current_hashes(links)),
        links.last().subrange(4, 8) == chain_tip(placeholder.subrange(0, 4), current_hashes(links)),
{
    lemma_prefix_forms_chain(placeholder, links, hash_ins, links.len());
    assert(links.last() == links[links.len() - 1]);
}

proof fn lemma_prefix_forms_chain(
    placeholder: Seq<u64>,
    links: Seq<Seq<u64>>,
    hash_ins: Seq<Seq<u64>>,
    n: nat,
)
    requires
        chain_holds(placeholder, links, hash_ins),
        n <= links.len(),
    ensures
        forall|k: int|
            0 <= k < n ==> (#[trigger] links[k]).subrange(0, 4) == placeholder.subrange(0, 4)
                && links[k][8] == layer_counter(k),
        forall|k: int|
            0 <= k < n ==> #[trigger] hash_ins[k] == if k == 0 {
                placeholder.subrange(0, 4)
            } else {
                current_hashes(links)[k - 1]
            },
    decreases n,
{
    if n > 0 {
        let k = n - 1;
        lemma_prefix_forms_chain(placeholder, links, hash_ins, k as nat);
        let pred = if k == 0 {
            placeholder
        } else {
            links[k - 1]
        };
        assert(layer_holds(k > 0, pred, links[k], hash_ins[k]));
        if k == 0 {
            lemma_counter_recurrence(0, placeholder[8] as int);
            assert(links[k][8] == layer_counter(k));
        } else {
            assert(links[k - 1][8] == layer_counter(k - 1));
            lemma_counter_recurrence((k - 1) as nat, 0);
            assert(links[k][8] == layer_counter(k));
            assert(current_hashes(links)[k - 1] == links[k - 1].subrange(4, 8));
            assert(links[k - 1].subrange(0, 4) == placeholder.subrange(0, 4));
        }
        assert(links[k].subrange(0, 4) == placeholder.subrange(0, 4));
        assert forall|j: int| 0 <= j < n implies (#[trigger] links[j]).subrange(0, 4)
            == placeholder.subrange(0, 4) && links[j][8] == layer_counter(j) by {
            if j < k {
                assert(links[j].subrange(0, 4) == placeholder.subrange(0, 4));
            }
        }
        assert forall|j: int| 0 <= j < n implies #[trigger] hash_ins[j] == if j == 0 {
            placeholder.subrange(0, 4)
        } else {
            current_hashes(links)[j - 1]
        } by {
            if j < k {
                assert(hash_ins[j] == if j == 0 {
                    placeholder.subrange(0, 4)
                } else {
                    current_hashes(links)[j - 1]
                });
            }
        }
    }
}

} // verus!

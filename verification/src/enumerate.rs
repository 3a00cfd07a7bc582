//! Enumerates the reclaimable outputs of expired rounds.
//!
//! Given the rounds read from the database and a block height, this emits,
//! for every round whose expiry height has passed, exactly two partially
//! filled PSBT inputs: the VTXO-tree root output (index 0), set up for a
//! taproot script-path spend of the expiry leaf and tagged `Vtxo`, and the
//! connector output (index 1), set up for a taproot key-path spend with the
//! service's key and tagged `Connector`.  The result is pinned, field by
//! field, by a spec function of the inputs, so enumeration is deterministic:
//! two calls on the same database state and height agree exactly.

use vstd::prelude::*;

use crate::codec::{copy_bytes, spec_encode_round_meta, RoundMetaKind, RoundMetaView};
use crate::psbt::{
    round_meta_key, PropEntryView, PsbtInput, PsbtInputView, TapScriptEntry, TapScriptEntryView,
    TxOutData, TxOutView,
};
use crate::{CONNECTOR_INPUT_WEIGHT, NODE_SPEND_WEIGHT};

verus! {

// ---------------------------------------------------------------------------
// Round records as read from the database collaborator
// ---------------------------------------------------------------------------

/// The fields of a signed VTXO tree that reclamation consumes: the
/// aggregate cosigning key the tree committed to, and the expiry leaf's
/// control block, script, leaf version and merkle root.
#[derive(Debug, Clone, PartialEq, Eq)]
pub struct VtxoTreeSpec {
    pub cosign_agg_pk: Vec<u8>,
    pub expiry_control_block: Vec<u8>,
    pub expiry_script: Vec<u8>,
    pub expiry_leaf_version: u8,
    pub expiry_merkle_root: Vec<u8>,
}

#[verifier::ext_equal]
pub ghost struct VtxoTreeSpecView {
    pub cosign_agg_pk: Seq<u8>,
    pub expiry_control_block: Seq<u8>,
    pub expiry_script: Seq<u8>,
    pub expiry_leaf_version: u8,
    pub expiry_merkle_root: Seq<u8>,
}

impl View for VtxoTreeSpec {
    type V = VtxoTreeSpecView;

    open spec fn view(&self) -> VtxoTreeSpecView {
        VtxoTreeSpecView {
            cosign_agg_pk: self.cosign_agg_pk@,
            expiry_control_block: self.expiry_control_block@,
            expiry_script: self.expiry_script@,
            expiry_leaf_version: self.expiry_leaf_version,
            expiry_merkle_root: self.expiry_merkle_root@,
        }
    }
}

impl VtxoTreeSpecView {
    pub open spec fn wf(&self) -> bool {
        &&& self.cosign_agg_pk.len() == 32
        &&& self.expiry_merkle_root.len() == 32
        &&& self.expiry_script.len() < 0x1_0000_0000
        &&& self.expiry_control_block.len() < 0x1_0000_0000
    }
}

/// One persisted round: the txid of its anchoring transaction, that
/// transaction's serialized bytes and outputs, the height after which the
/// service may reclaim it, and the signed tree's spend data.
#[derive(Debug, Clone, PartialEq, Eq)]
pub struct RoundData {
    pub txid: Vec<u8>,
    pub tx_bytes: Vec<u8>,
    pub outputs: Vec<TxOutData>,
    pub expiry_height: u32,
    pub tree: VtxoTreeSpec,
}

#[verifier::ext_equal]
pub ghost struct RoundDataView {
    pub txid: Seq<u8>,
    pub tx_bytes: Seq<u8>,
    pub outputs: Seq<TxOutView>,
    pub expiry_height: u32,
    pub tree: VtxoTreeSpecView,
}

impl View for RoundData {
    type V = RoundDataView;

    open spec fn view(&self) -> RoundDataView {
        RoundDataView {
            txid: self.txid@,
            tx_bytes: self.tx_bytes@,
            outputs: self.outputs@.map_values(|o: TxOutData| o@),
            expiry_height: self.expiry_height,
            tree: self.tree@,
        }
    }
}

impl RoundDataView {
    pub open spec fn wf(&self) -> bool {
        &&& self.txid.len() == 32
        &&& self.outputs.len() >= 2
        &&& self.tree.wf()
    }
}

// ---------------------------------------------------------------------------
// Spendable UTXOs
// ---------------------------------------------------------------------------

/// An on-chain outpoint: a txid and an output index.
#[derive(Debug, Clone, PartialEq, Eq)]
pub struct OutPointData {
    pub txid: Vec<u8>,
    pub vout: u32,
}

#[verifier::ext_equal]
pub ghost struct OutPointView {
    pub txid: Seq<u8>,
    pub vout: u32,
}

impl View for OutPointData {
    type V = OutPointView;

    open spec fn view(&self) -> OutPointView {
        OutPointView { txid: self.txid@, vout: self.vout }
    }
}

/// An ephemeral reclaimable output: its outpoint, a PSBT input holding
/// everything needed to sign except the final witness, and the witness
/// weight fee estimation should budget for it.
#[derive(Debug, Clone, PartialEq, Eq)]
pub struct SpendableUtxo {
    pub point: OutPointData,
    pub psbt: PsbtInput,
    pub weight: u64,
}

#[verifier::ext_equal]
pub ghost struct SpendableUtxoView {
    pub point: OutPointView,
    pub psbt: PsbtInputView,
    pub weight: u64,
}

impl View for SpendableUtxo {
    type V = SpendableUtxoView;

    open spec fn view(&self) -> SpendableUtxoView {
        SpendableUtxoView { point: self.point@, psbt: self.psbt@, weight: self.weight }
    }
}

impl SpendableUtxo {
    /// The amount of the output being spent.
    pub fn amount(&self) -> (r: u64)
        requires
            self@.psbt.witness_utxo is Some,
        ensures
            match self@.psbt.witness_utxo {
                Some(t) => r == t.value,
                None => false,
            },
    {
        match &self.psbt.witness_utxo {
            Some(t) => t.value,
            None => unreached(),
        }
    }
}

// ---------------------------------------------------------------------------
// What the enumerator emits, as a function of the database state
// ---------------------------------------------------------------------------

/// The input that reclaims the VTXO-tree root output of round `r`.
pub open spec fn vtxo_entry(r: RoundDataView) -> SpendableUtxoView {
    SpendableUtxoView {
        point: OutPointView { txid: r.txid, vout: 0 },
        psbt: PsbtInputView {
            witness_utxo: Some(r.outputs[0]),
            sighash_type: Some(0),
            tap_internal_key: Some(r.tree.cosign_agg_pk),
            tap_scripts: seq![
                TapScriptEntryView {
                    control_block: r.tree.expiry_control_block,
                    script: r.tree.expiry_script,
                    leaf_version: r.tree.expiry_leaf_version,
                },
            ],
            tap_merkle_root: Some(r.tree.expiry_merkle_root),
            non_witness_utxo: Some(r.tx_bytes),
            proprietary: seq![
                PropEntryView {
                    key: round_meta_key(),
                    value: spec_encode_round_meta(
                        RoundMetaView { round_txid: r.txid, kind: RoundMetaKind::Vtxo },
                    ),
                },
            ],
            final_script_witness: None,
        },
        weight: NODE_SPEND_WEIGHT,
    }
}

/// The input that reclaims the connector output of round `r`, key-path
/// spendable by the service key `pk`.
pub open spec fn connector_entry(r: RoundDataView, pk: Seq<u8>) -> SpendableUtxoView {
    SpendableUtxoView {
        point: OutPointView { txid: r.txid, vout: 1 },
        psbt: PsbtInputView {
            witness_utxo: Some(r.outputs[1]),
            sighash_type: Some(0),
            tap_internal_key: Some(pk),
            tap_scripts: Seq::empty(),
            tap_merkle_root: None,
            non_witness_utxo: Some(r.tx_bytes),
            proprietary: seq![
                PropEntryView {
                    key: round_meta_key(),
                    value: spec_encode_round_meta(
                        RoundMetaView { round_txid: r.txid, kind: RoundMetaKind::Connector },
                    ),
                },
            ],
            final_script_witness: None,
        },
        weight: CONNECTOR_INPUT_WEIGHT,
    }
}

/// Round-major, tree output before connector output: for each round whose
/// expiry height is at or below `height`, in database order, its two
/// reclaimable inputs.
pub open spec fn spec_spendable(rounds: Seq<RoundDataView>, pk: Seq<u8>, height: u32) -> Seq<
    SpendableUtxoView,
>
    decreases rounds.len(),
{
    if rounds.len() == 0 {
        Seq::empty()
    } else {
        let rest = spec_spendable(rounds.drop_last(), pk, height);
        let r = rounds.last();
        if r.expiry_height <= height {
            rest + seq![vtxo_entry(r), connector_entry(r, pk)]
        } else {
            rest
        }
    }
}

pub open spec fn sus_view(s: Seq<SpendableUtxo>) -> Seq<SpendableUtxoView> {
    s.map_values(|x: SpendableUtxo| x@)
}

pub open spec fn rds_view(s: Seq<RoundData>) -> Seq<RoundDataView> {
    s.map_values(|x: RoundData| x@)
}

/// Enumeration is deterministic: the emitted list is a function of the
/// database state, the service key and the height alone, so two calls on
/// the same inputs agree exactly.
pub proof fn lemma_enumerator_deterministic(
    rounds: Seq<RoundDataView>,
    pk: Seq<u8>,
    height: u32,
    a: Seq<SpendableUtxoView>,
    b: Seq<SpendableUtxoView>,
)
    requires
        a == spec_spendable(rounds, pk, height),
        b == spec_spendable(rounds, pk, height),
    ensures
        a == b,
{
}

// ---------------------------------------------------------------------------
// The enumerator
// ---------------------------------------------------------------------------

/// Returns the reclaimable outputs of every round in `rounds` whose expiry
/// height is at or below `height`: per expired round, its VTXO-tree root
/// input tagged `Vtxo` and its connector input tagged `Connector`, in
/// round-major order, exactly as `spec_spendable` lays them out.
pub fn spendable_expired_vtxos(rounds: &Vec<RoundData>, asp_pubkey: &Vec<u8>, height: u32) -> (r:
    Vec<SpendableUtxo>)
    requires
        forall|i: int| 0 <= i < rounds@.len() ==> (#[trigger] rounds@[i])@.wf(),
        asp_pubkey@.len() == 32,
    ensures
        sus_view(r@) == spec_spendable(rds_view(rounds@), asp_pubkey@, height),
{
    let ghost rv = rds_view(rounds@);
    let mut out: Vec<SpendableUtxo> = Vec::new();
    let mut i: usize = 0;
    proof {
        assert(sus_view(out@) =~= spec_spendable(rv.subrange(0, 0), asp_pubkey@, height));
    }
    while i < rounds.len()
        invariant
            i <= rounds@.len(),
            rv == rds_view(rounds@),
            forall|j: int| 0 <= j < rounds@.len() ==> (#[trigger] rounds@[j])@.wf(),
            asp_pubkey@.len() == 32,
            sus_view(out@) == spec_spendable(rv.subrange(0, i as int), asp_pubkey@, height),
        decreases rounds@.len() - i,
    {
        let rd = &rounds[i];
        proof {
            assert(rv[i as int] == rounds@[i as int]@);
            assert(rv.subrange(0, i as int + 1).drop_last() =~= rv.subrange(0, i as int));
            assert(rv.subrange(0, i as int + 1).last() == rv[i as int]);
        }
        if rd.expiry_height <= height {
            // The VTXO-tree root output, spent by script path.
            let mut tap_scripts: Vec<TapScriptEntry> = Vec::new();
            tap_scripts.push(
                TapScriptEntry {
                    control_block: copy_bytes(&rd.tree.expiry_control_block),
                    script: copy_bytes(&rd.tree.expiry_script),
                    leaf_version: rd.tree.expiry_leaf_version,
                },
            );
            let mut vtxo_in = PsbtInput {
                witness_utxo: Some(
                    TxOutData {
                        value: rd.outputs[0].value,
                        script_pubkey: copy_bytes(&rd.outputs[0].script_pubkey),
                    },
                ),
                sighash_type: Some(0),
                tap_internal_key: Some(copy_bytes(&rd.tree.cosign_agg_pk)),
                tap_scripts,
                tap_merkle_root: Some(copy_bytes(&rd.tree.expiry_merkle_root)),
                non_witness_utxo: Some(copy_bytes(&rd.tx_bytes)),
                proprietary: Vec::new(),
                final_script_witness: None,
            };
            proof {
                assert(vtxo_in@.proprietary =~= Seq::<PropEntryView>::empty());
                assert(vtxo_in@.tap_scripts =~= seq![
                    TapScriptEntryView {
                        control_block: rd.tree@.expiry_control_block,
                        script: rd.tree@.expiry_script,
                        leaf_version: rd.tree@.expiry_leaf_version,
                    },
                ]);
                assert(vtxo_in@.wf());
            }
            let txid = copy_bytes(&rd.txid);
            vtxo_in.set_round_meta(&txid, RoundMetaKind::Vtxo);
            let a = SpendableUtxo {
                point: OutPointData { txid: copy_bytes(&rd.txid), vout: 0 },
                psbt: vtxo_in,
                weight: NODE_SPEND_WEIGHT,
            };
            proof {
                assert(a@.psbt =~~= vtxo_entry(rv[i as int]).psbt);
                assert(a@ =~~= vtxo_entry(rv[i as int]));
            }
            // The connector output, spent by key path.
            let mut conn_in = PsbtInput {
                witness_utxo: Some(
                    TxOutData {
                        value: rd.outputs[1].value,
                        script_pubkey: copy_bytes(&rd.outputs[1].script_pubkey),
                    },
                ),
                sighash_type: Some(0),
                tap_internal_key: Some(copy_bytes(asp_pubkey)),
                tap_scripts: Vec::new(),
                tap_merkle_root: None,
                non_witness_utxo: Some(copy_bytes(&rd.tx_bytes)),
                proprietary: Vec::new(),
                final_script_witness: None,
            };
            proof {
                assert(conn_in@.proprietary =~= Seq::<PropEntryView>::empty());
                assert(conn_in@.tap_scripts =~= Seq::<TapScriptEntryView>::empty());
                assert(conn_in@.wf());
            }
            conn_in.set_round_meta(&txid, RoundMetaKind::Connector);
            let b = SpendableUtxo {
                point: OutPointData { txid, vout: 1 },
                psbt: conn_in,
                weight: CONNECTOR_INPUT_WEIGHT,
            };
            proof {
                assert(b@.psbt =~~= connector_entry(rv[i as int], asp_pubkey@).psbt);
                assert(b@ =~~= connector_entry(rv[i as int], asp_pubkey@));
            }
            let ghost out_pre = out@;
            out.push(a);
            out.push(b);
            proof {
                assert(sus_view(out@) =~= sus_view(out_pre) + seq![
                    vtxo_entry(rv[i as int]),
                    connector_entry(rv[i as int], asp_pubkey@),
                ]);
                assert(sus_view(out@) =~= spec_spendable(
                    rv.subrange(0, i as int + 1),
                    asp_pubkey@,
                    height,
                ));
            }
        } else {
            proof {
                assert(sus_view(out@) =~= spec_spendable(
                    rv.subrange(0, i as int + 1),
                    asp_pubkey@,
                    height,
                ));
            }
        }
        i = i + 1;
    }
    proof {
        assert(rv.subrange(0, rounds@.len() as int) =~= rv);
    }
    out
}

} // verus!

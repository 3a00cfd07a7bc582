//! Fills final taproot witnesses on round-reclamation PSBT inputs.
//!
//! Inputs tagged `RoundMeta::Vtxo` get a script-path witness over their
//! sole tap-script leaf (signature, script, control block); inputs tagged
//! `RoundMeta::Connector` get a key-path witness (signature only) from the
//! key-spend-tweaked service key.  Untagged inputs are left untouched, so a
//! mixed PSBT with a collaborator's unrelated inputs passes through
//! unharmed.  Signing runs in two phases: every witness is computed before
//! any is written, so a failure — a missing witness UTXO, a tag that does
//! not decode, a `Vtxo` tag with no tap script, a witness that would not
//! serialize to the budgeted weight — leaves the whole PSBT unchanged and
//! is reported with the offending input index.  Success is owed exactly
//! when the key is valid and every input is ready (`spec_cosign_ok`).

use vstd::prelude::*;

use crate::codec::{bytes_view, copy_bytes, spec_decode_round_meta, RoundMetaKind, RoundMetaView};
use crate::crypto::{
    key_sighash_of, key_sighash_ok, keyspend_secret, keyspend_sk_of, schnorr_sign,
    schnorr_verifies, script_sighash_of, script_sighash_ok, sk_ok, taproot_key_sighash,
    taproot_script_sighash, xonly_pubkey_of,
};
use crate::psbt::{prop_get, round_meta_key, Psbt, PsbtInputView};
use crate::{CoreError, NODE_SPEND_WEIGHT};

verus! {

// ---------------------------------------------------------------------------
// Witness serialization size
// ---------------------------------------------------------------------------

/// Size of the Bitcoin compact-size encoding of `n`.
pub open spec fn varint_len(n: nat) -> nat {
    if n < 0xfd {
        1
    } else if n < 0x1_0000 {
        3
    } else if n < 0x1_0000_0000 {
        5
    } else {
        9
    }
}

pub open spec fn items_ser_len(w: Seq<Seq<u8>>) -> nat
    decreases w.len(),
{
    if w.len() == 0 {
        0
    } else {
        items_ser_len(w.drop_last()) + varint_len(w.last().len()) + w.last().len()
    }
}

/// Serialized size of a witness stack: the item count followed by each
/// item, length-prefixed.
pub open spec fn witness_ser_len(w: Seq<Seq<u8>>) -> nat {
    varint_len(w.len()) + items_ser_len(w)
}

/// Serialized size of the three-item leaf witness [64-byte signature,
/// `script`, `cb`]; it depends only on the two committed items' lengths.
pub open spec fn leaf_witness_ser_len(script: Seq<u8>, cb: Seq<u8>) -> nat {
    1 + (1 + 64) + varint_len(script.len()) + script.len() + varint_len(cb.len()) + cb.len()
}

/// The serialized size of a three-item witness whose first item is a
/// 64-byte signature is `leaf_witness_ser_len` of the other two items.
pub proof fn lemma_witness3_len(sig: Seq<u8>, s: Seq<u8>, cb: Seq<u8>)
    requires
        sig.len() == 64,
    ensures
        witness_ser_len(seq![sig, s, cb]) == leaf_witness_ser_len(s, cb),
{
    let w = seq![sig, s, cb];
    assert(w.drop_last() =~= seq![sig, s]);
    assert(seq![sig, s].drop_last() =~= seq![sig]);
    assert(seq![sig].drop_last() =~= Seq::<Seq<u8>>::empty());
    assert(items_ser_len(Seq::<Seq<u8>>::empty()) == 0);
    assert(items_ser_len(seq![sig]) == varint_len(64) + 64);
    assert(items_ser_len(seq![sig, s]) == varint_len(64) + 64 + varint_len(s.len()) + s.len());
}

fn varint_len_exec(n: u64) -> (r: u64)
    ensures
        r == varint_len(n as nat),
{
    if n < 0xfd {
        1
    } else if n < 0x1_0000 {
        3
    } else if n < 0x1_0000_0000 {
        5
    } else {
        9
    }
}

/// Computes `leaf_witness_ser_len` for a leaf script and control block.
pub fn leaf_witness_len(script: &Vec<u8>, cb: &Vec<u8>) -> (r: u64)
    requires
        script@.len() < 0x1_0000_0000,
        cb@.len() < 0x1_0000_0000,
    ensures
        r == leaf_witness_ser_len(script@, cb@),
{
    let a = varint_len_exec(script.len() as u64);
    let b = varint_len_exec(cb.len() as u64);
    66 + a + (script.len() as u64) + b + (cb.len() as u64)
}

// ---------------------------------------------------------------------------
// Per-input conditions and outcomes
// ---------------------------------------------------------------------------

/// The round tag of an input: `Ok(None)` when absent, `Err` when a tag is
/// present but does not decode.
pub open spec fn input_round_tag(i: PsbtInputView) -> Result<Option<RoundMetaView>, ()> {
    match prop_get(i.proprietary, round_meta_key()) {
        None => Ok(None),
        Some(b) => match spec_decode_round_meta(b) {
            Some(m) => Ok(Some(m)),
            None => Err(()),
        },
    }
}

/// `pre` with its final witness set to `w` and every other field as it was.
pub open spec fn with_witness(pre: PsbtInputView, w: Seq<Seq<u8>>) -> PsbtInputView {
    PsbtInputView {
        witness_utxo: pre.witness_utxo,
        sighash_type: pre.sighash_type,
        tap_internal_key: pre.tap_internal_key,
        tap_scripts: pre.tap_scripts,
        tap_merkle_root: pre.tap_merkle_root,
        non_witness_utxo: pre.non_witness_utxo,
        proprietary: pre.proprietary,
        final_script_witness: Some(w),
    }
}

/// The amounts of all inputs' witness UTXOs, in input order.
pub open spec fn prevout_values(inputs: Seq<PsbtInputView>) -> Seq<u64> {
    inputs.map_values(
        |i: PsbtInputView|
            match i.witness_utxo {
                Some(t) => t.value,
                None => 0,
            },
    )
}

/// The scriptPubKeys of all inputs' witness UTXOs, in input order.
pub open spec fn prevout_spks(inputs: Seq<PsbtInputView>) -> Seq<Seq<u8>> {
    inputs.map_values(
        |i: PsbtInputView|
            match i.witness_utxo {
                Some(t) => t.script_pubkey,
                None => Seq::<u8>::empty(),
            },
    )
}

/// Input `i` of `p` was given a script-path witness over its first
/// tap-script leaf: a 64-byte signature that passes BIP340 verification
/// for the service key over the leaf's script-spend sighash of `p`'s
/// unsigned transaction under all of `p`'s witness UTXOs, then the leaf
/// script and the control block; the witness serializes to exactly the
/// node-spend weight that fee estimation used.
pub open spec fn signed_vtxo_input(p: crate::psbt::PsbtView, post: PsbtInputView, sk: Seq<u8>, i: int) -> bool {
    let pre = p.inputs[i];
    &&& pre.tap_scripts.len() >= 1
    &&& leaf_witness_ser_len(pre.tap_scripts[0].script, pre.tap_scripts[0].control_block)
        == NODE_SPEND_WEIGHT
    &&& exists|sig: Seq<u8>|
        {
            &&& #[trigger] sig.len() == 64
            &&& schnorr_verifies(
                xonly_pubkey_of(sk),
                script_sighash_of(
                    p.unsigned_tx,
                    prevout_values(p.inputs),
                    prevout_spks(p.inputs),
                    i,
                    pre.tap_scripts[0].script,
                    pre.tap_scripts[0].leaf_version,
                ),
                sig,
            )
            &&& post == with_witness(
                pre,
                seq![sig, pre.tap_scripts[0].script, pre.tap_scripts[0].control_block],
            )
        }
}

/// Input `i` of `p` was given a key-path witness: a single 64-byte
/// signature that passes BIP340 verification for the key-spend-tweaked
/// service key over the key-spend sighash of `p`'s unsigned transaction
/// under all of `p`'s witness UTXOs.
pub open spec fn signed_connector_input(
    p: crate::psbt::PsbtView,
    post: PsbtInputView,
    sk: Seq<u8>,
    i: int,
) -> bool {
    let pre = p.inputs[i];
    exists|sig: Seq<u8>|
        {
            &&& #[trigger] sig.len() == 64
            &&& schnorr_verifies(
                xonly_pubkey_of(keyspend_sk_of(sk)),
                key_sighash_of(p.unsigned_tx, prevout_values(p.inputs), prevout_spks(p.inputs), i),
                sig,
            )
            &&& post == with_witness(pre, seq![sig])
        }
}

/// What the cosigner owes input `i` on success: untagged inputs pass
/// through untouched, tagged ones carry the witness their tag calls for.
pub open spec fn input_outcome(p: crate::psbt::PsbtView, post: PsbtInputView, sk: Seq<u8>, i: int) -> bool {
    match input_round_tag(p.inputs[i]) {
        Ok(None) => post == p.inputs[i],
        Ok(Some(m)) => match m.kind {
            RoundMetaKind::Vtxo => signed_vtxo_input(p, post, sk, i),
            RoundMetaKind::Connector => signed_connector_input(p, post, sk, i),
        },
        Err(_) => false,
    }
}

/// What the cosigner needs of input `i`: a witness UTXO (taproot
/// sighashing commits to every prevout), a decodable tag, and for tagged
/// inputs a computable sighash — plus, for `Vtxo`, the expiry leaf and a
/// witness size agreeing with the budgeted weight.
pub open spec fn input_ready(p: crate::psbt::PsbtView, i: int) -> bool {
    let pre = p.inputs[i];
    &&& pre.witness_utxo is Some
    &&& match input_round_tag(pre) {
        Ok(None) => true,
        Ok(Some(m)) => match m.kind {
            RoundMetaKind::Vtxo => {
                &&& pre.tap_scripts.len() >= 1
                &&& leaf_witness_ser_len(
                    pre.tap_scripts[0].script,
                    pre.tap_scripts[0].control_block,
                ) == NODE_SPEND_WEIGHT
                &&& script_sighash_ok(
                    p.unsigned_tx,
                    prevout_values(p.inputs),
                    prevout_spks(p.inputs),
                    i,
                    pre.tap_scripts[0].script,
                    pre.tap_scripts[0].leaf_version,
                )
            },
            RoundMetaKind::Connector => key_sighash_ok(
                p.unsigned_tx,
                prevout_values(p.inputs),
                prevout_spks(p.inputs),
                i,
            ),
        },
        Err(_) => false,
    }
}

/// Exactly when cosigning succeeds: the service key is a valid secret key
/// and every input is ready.
pub open spec fn spec_cosign_ok(p: crate::psbt::PsbtView, sk: Seq<u8>) -> bool {
    &&& sk_ok(sk)
    &&& forall|i: int| 0 <= i < p.inputs.len() ==> input_ready(p, i)
}

/// The witness phase one computed for input `j`: none for an untagged
/// input, the tag's witness shape otherwise.
pub open spec fn planned_wit(
    p: crate::psbt::PsbtView,
    sk: Seq<u8>,
    j: int,
    w: Option<Vec<Vec<u8>>>,
) -> bool {
    match input_round_tag(p.inputs[j]) {
        Ok(None) => w is None,
        Ok(Some(m)) => match m.kind {
            RoundMetaKind::Vtxo => w matches Some(wv) && {
                let b = bytes_view(wv@);
                &&& b.len() == 3
                &&& b[0].len() == 64
                &&& b[1] == p.inputs[j].tap_scripts[0].script
                &&& b[2] == p.inputs[j].tap_scripts[0].control_block
                &&& schnorr_verifies(
                    xonly_pubkey_of(sk),
                    script_sighash_of(
                        p.unsigned_tx,
                        prevout_values(p.inputs),
                        prevout_spks(p.inputs),
                        j,
                        p.inputs[j].tap_scripts[0].script,
                        p.inputs[j].tap_scripts[0].leaf_version,
                    ),
                    b[0],
                )
            },
            RoundMetaKind::Connector => w matches Some(wv) && {
                let b = bytes_view(wv@);
                &&& b.len() == 1
                &&& b[0].len() == 64
                &&& schnorr_verifies(
                    xonly_pubkey_of(keyspend_sk_of(sk)),
                    key_sighash_of(
                        p.unsigned_tx,
                        prevout_values(p.inputs),
                        prevout_spks(p.inputs),
                        j,
                    ),
                    b[0],
                )
            },
        },
        Err(_) => false,
    }
}

// ---------------------------------------------------------------------------
// The cosigner
// ---------------------------------------------------------------------------

/// Signs every `RoundMeta`-tagged input of `psbt` in index order with the
/// service's key `master_sk`, filling `final_script_witness` in place:
/// script-path for `Vtxo` tags, key-path (with the tweaked key) for
/// `Connector` tags.  Untagged inputs are left untouched.  Succeeds if and
/// only if the key is valid and every input is ready
/// (`spec_cosign_ok`); on failure the PSBT is unchanged and the error
/// names the offending input.
pub fn sign_round_utxo_inputs(psbt: &mut Psbt, master_sk: &Vec<u8>) -> (r: Result<(), CoreError>)
    requires
        old(psbt)@.wf(),
        master_sk@.len() == 32,
    ensures
        final(psbt)@.wf(),
        final(psbt)@.unsigned_tx == old(psbt)@.unsigned_tx,
        final(psbt)@.inputs.len() == old(psbt)@.inputs.len(),
        r is Ok <==> spec_cosign_ok(old(psbt)@, master_sk@),
        r is Ok ==> forall|i: int|
            0 <= i < old(psbt)@.inputs.len() ==> input_outcome(
                old(psbt)@,
                #[trigger] final(psbt)@.inputs[i],
                master_sk@,
                i,
            ),
        r is Err ==> final(psbt)@ == old(psbt)@,
        r matches Err(e) ==> match e {
            CoreError::MissingWitnessUtxo { input_index } => input_index
                < old(psbt)@.inputs.len() && old(psbt)@.inputs[
                input_index as int
            ].witness_utxo is None,
            CoreError::CorruptMeta { input_index } => input_index < old(psbt)@.inputs.len()
                && input_round_tag(old(psbt)@.inputs[input_index as int]) is Err,
            CoreError::MissingTapScript { input_index } => {
                &&& input_index < old(psbt)@.inputs.len()
                &&& input_round_tag(old(psbt)@.inputs[input_index as int]) matches Ok(Some(m))
                    && m.kind == RoundMetaKind::Vtxo && old(psbt)@.inputs[
                    input_index as int
                ].tap_scripts.len() == 0
            },
            CoreError::WitnessWeightMismatch { input_index } => {
                &&& input_index < old(psbt)@.inputs.len()
                &&& input_round_tag(old(psbt)@.inputs[input_index as int]) matches Ok(Some(m))
                    && m.kind == RoundMetaKind::Vtxo && old(psbt)@.inputs[
                    input_index as int
                ].tap_scripts.len() >= 1 && leaf_witness_ser_len(
                    old(psbt)@.inputs[input_index as int].tap_scripts[0].script,
                    old(psbt)@.inputs[input_index as int].tap_scripts[0].control_block,
                ) != NODE_SPEND_WEIGHT
            },
            CoreError::SighashFailed { input_index } => {
                &&& input_index < old(psbt)@.inputs.len()
                &&& input_round_tag(old(psbt)@.inputs[input_index as int]) matches Ok(Some(m))
                    && match m.kind {
                    RoundMetaKind::Vtxo => old(psbt)@.inputs[input_index as int].tap_scripts.len()
                        >= 1 && !script_sighash_ok(
                        old(psbt)@.unsigned_tx,
                        prevout_values(old(psbt)@.inputs),
                        prevout_spks(old(psbt)@.inputs),
                        input_index as int,
                        old(psbt)@.inputs[input_index as int].tap_scripts[0].script,
                        old(psbt)@.inputs[input_index as int].tap_scripts[0].leaf_version,
                    ),
                    RoundMetaKind::Connector => !key_sighash_ok(
                        old(psbt)@.unsigned_tx,
                        prevout_values(old(psbt)@.inputs),
                        prevout_spks(old(psbt)@.inputs),
                        input_index as int,
                    ),
                }
            },
            CoreError::BadSigningKey => !sk_ok(master_sk@),
            _ => false,
        },
{
    let ghost p = psbt@;
    let n = psbt.inputs.len();

    // Phase one reads and computes; nothing is written until every
    // witness is in hand, so any failure leaves the PSBT as it was.

    // Gather all prevouts up front: taproot sighashing commits to them all.
    let mut values: Vec<u64> = Vec::new();
    let mut spks: Vec<Vec<u8>> = Vec::new();
    let mut i: usize = 0;
    while i < n
        invariant
            psbt@ == p,
            p == old(psbt)@,
            n == p.inputs.len(),
            p.wf(),
            i <= n,
            values@.len() == i,
            spks@.len() == i,
            forall|j: int| 0 <= j < i ==> #[trigger] values@[j] == prevout_values(p.inputs)[j],
            forall|j: int| 0 <= j < i ==> #[trigger] spks@[j]@ == prevout_spks(p.inputs)[j],
            forall|j: int| 0 <= j < i ==> (#[trigger] p.inputs[j]).witness_utxo is Some,
        decreases n - i,
    {
        match &psbt.inputs[i].witness_utxo {
            Some(t) => {
                values.push(t.value);
                spks.push(copy_bytes(&t.script_pubkey));
                proof {
                    assert(p.inputs[i as int] == psbt@.inputs[i as int]);
                }
            },
            None => {
                proof {
                    assert(p.inputs[i as int].witness_utxo is None);
                    assert(!input_ready(p, i as int));
                    assert(!spec_cosign_ok(p, master_sk@));
                }
                return Err(CoreError::MissingWitnessUtxo { input_index: i });
            },
        }
        i = i + 1;
    }
    proof {
        assert(values@ =~= prevout_values(p.inputs));
        assert(bytes_view(spks@) =~= prevout_spks(p.inputs));
    }

    // The connector outputs are spent with the key-spend-tweaked key.
    let keyspend_sk = match keyspend_secret(master_sk) {
        Some(k) => k,
        None => {
            proof {
                assert(!sk_ok(master_sk@));
                assert(!spec_cosign_ok(p, master_sk@));
            }
            return Err(CoreError::BadSigningKey);
        },
    };

    // Compute every tagged input's witness.
    let mut wits: Vec<Option<Vec<Vec<u8>>>> = Vec::new();
    let mut idx: usize = 0;
    while idx < n
        invariant
            psbt@ == p,
            p == old(psbt)@,
            n == p.inputs.len(),
            p.wf(),
            master_sk@.len() == 32,
            sk_ok(master_sk@),
            keyspend_sk@ == keyspend_sk_of(master_sk@),
            keyspend_sk@.len() == 32,
            sk_ok(keyspend_sk@),
            values@.len() == n,
            spks@.len() == n,
            values@ == prevout_values(p.inputs),
            bytes_view(spks@) == prevout_spks(p.inputs),
            forall|j: int| 0 <= j < n ==> (#[trigger] p.inputs[j]).witness_utxo is Some,
            idx <= n,
            wits@.len() == idx,
            forall|j: int| 0 <= j < idx ==> input_ready(p, j),
            forall|j: int| 0 <= j < idx ==> planned_wit(p, master_sk@, j, #[trigger] wits@[j]),
        decreases n - idx,
    {
        proof {
            assert(psbt@.inputs[idx as int].wf());
        }
        let tag = psbt.inputs[idx].get_round_meta();
        match tag {
            Err(_) => {
                proof {
                    assert(input_round_tag(p.inputs[idx as int]) is Err);
                    assert(!input_ready(p, idx as int));
                    assert(!spec_cosign_ok(p, master_sk@));
                }
                return Err(CoreError::CorruptMeta { input_index: idx });
            },
            Ok(None) => {
                wits.push(None);
                proof {
                    assert(input_round_tag(p.inputs[idx as int]) == Ok::<
                        Option<RoundMetaView>,
                        (),
                    >(None));
                    assert(input_ready(p, idx as int));
                    assert(planned_wit(p, master_sk@, idx as int, wits@[idx as int]));
                }
            },
            Ok(Some(meta)) => {
                match meta.kind {
                    RoundMetaKind::Vtxo => {
                        if psbt.inputs[idx].tap_scripts.len() == 0 {
                            proof {
                                assert(!input_ready(p, idx as int));
                                assert(!spec_cosign_ok(p, master_sk@));
                            }
                            return Err(CoreError::MissingTapScript { input_index: idx });
                        }
                        let script = copy_bytes(&psbt.inputs[idx].tap_scripts[0].script);
                        let cb = copy_bytes(&psbt.inputs[idx].tap_scripts[0].control_block);
                        let lv = psbt.inputs[idx].tap_scripts[0].leaf_version;
                        proof {
                            assert(p.inputs[idx as int].tap_scripts[0] == psbt.inputs@[idx as int]@.tap_scripts[0]);
                        }
                        proof {
                            assert(script@.len() < 0x1_0000_0000 && cb@.len() < 0x1_0000_0000);
                        }
                        let wlen = leaf_witness_len(&script, &cb);
                        if wlen != NODE_SPEND_WEIGHT {
                            proof {
                                assert(!input_ready(p, idx as int));
                                assert(!spec_cosign_ok(p, master_sk@));
                            }
                            return Err(CoreError::WitnessWeightMismatch { input_index: idx });
                        }
                        let sighash = match taproot_script_sighash(
                            &psbt.unsigned_tx,
                            &values,
                            &spks,
                            idx,
                            &script,
                            lv,
                        ) {
                            Some(h) => h,
                            None => {
                                proof {
                                    assert(!script_sighash_ok(
                                        p.unsigned_tx,
                                        prevout_values(p.inputs),
                                        prevout_spks(p.inputs),
                                        idx as int,
                                        p.inputs[idx as int].tap_scripts[0].script,
                                        p.inputs[idx as int].tap_scripts[0].leaf_version,
                                    ));
                                    assert(!input_ready(p, idx as int));
                                    assert(!spec_cosign_ok(p, master_sk@));
                                }
                                return Err(CoreError::SighashFailed { input_index: idx });
                            },
                        };
                        let sig = match schnorr_sign(master_sk, &sighash) {
                            Some(s) => s,
                            None => {
                                proof {
                                    assert(false);
                                }
                                return Err(CoreError::BadSigningKey);
                            },
                        };
                        let ghost sigv = sig@;
                        let mut wit: Vec<Vec<u8>> = Vec::new();
                        wit.push(sig);
                        wit.push(script);
                        wit.push(cb);
                        proof {
                            assert(bytes_view(wit@) =~= seq![
                                sigv,
                                p.inputs[idx as int].tap_scripts[0].script,
                                p.inputs[idx as int].tap_scripts[0].control_block,
                            ]);
                        }
                        wits.push(Some(wit));
                        proof {
                            assert(input_ready(p, idx as int));
                            assert(planned_wit(p, master_sk@, idx as int, wits@[idx as int]));
                        }
                    },
                    RoundMetaKind::Connector => {
                        let sighash = match taproot_key_sighash(
                            &psbt.unsigned_tx,
                            &values,
                            &spks,
                            idx,
                        ) {
                            Some(h) => h,
                            None => {
                                proof {
                                    assert(!key_sighash_ok(
                                        p.unsigned_tx,
                                        prevout_values(p.inputs),
                                        prevout_spks(p.inputs),
                                        idx as int,
                                    ));
                                    assert(!input_ready(p, idx as int));
                                    assert(!spec_cosign_ok(p, master_sk@));
                                }
                                return Err(CoreError::SighashFailed { input_index: idx });
                            },
                        };
                        let sig = match schnorr_sign(&keyspend_sk, &sighash) {
                            Some(s) => s,
                            None => {
                                proof {
                                    assert(false);
                                }
                                return Err(CoreError::BadSigningKey);
                            },
                        };
                        let ghost sigv = sig@;
                        let mut wit: Vec<Vec<u8>> = Vec::new();
                        wit.push(sig);
                        proof {
                            assert(bytes_view(wit@) =~= seq![sigv]);
                        }
                        wits.push(Some(wit));
                        proof {
                            assert(input_ready(p, idx as int));
                            assert(planned_wit(p, master_sk@, idx as int, wits@[idx as int]));
                        }
                    },
                }
            },
        }
        idx = idx + 1;
    }
    proof {
        assert(spec_cosign_ok(p, master_sk@));
    }

    // Phase two: every witness is in hand; write them in place.
    let ghost witsv = wits@;
    let mut k: usize = 0;
    while k < n
        invariant
            p == old(psbt)@,
            n == p.inputs.len(),
            p.wf(),
            master_sk@.len() == 32,
            spec_cosign_ok(p, master_sk@),
            psbt@.unsigned_tx == p.unsigned_tx,
            psbt@.inputs.len() == n,
            psbt@.wf(),
            k <= n,
            witsv.len() == n,
            wits@ == witsv.subrange(k as int, n as int),
            forall|j: int| 0 <= j < n ==> planned_wit(p, master_sk@, j, #[trigger] witsv[j]),
            forall|j: int| k <= j < n ==> #[trigger] psbt@.inputs[j] == p.inputs[j],
            forall|j: int|
                0 <= j < k ==> input_outcome(p, #[trigger] psbt@.inputs[j], master_sk@, j),
        decreases n - k,
    {
        let w = wits.remove(0);
        proof {
            assert(w == witsv[k as int]);
            assert(wits@ =~= witsv.subrange(k as int + 1, n as int));
        }
        match w {
            Some(wvec) => {
                let ghost b = bytes_view(wvec@);
                proof {
                    assert(witsv[k as int] == Some(wvec));
                }
                let ghost cur = psbt@.inputs;
                let mut inp = psbt.inputs.remove(k);
                inp.final_script_witness = Some(wvec);
                psbt.inputs.insert(k, inp);
                proof {
                    assert(cur[k as int] == p.inputs[k as int]);
                    assert(psbt@.inputs =~= cur.update(
                        k as int,
                        with_witness(p.inputs[k as int], b),
                    ));
                    assert(planned_wit(p, master_sk@, k as int, witsv[k as int]));
                    match input_round_tag(p.inputs[k as int]) {
                        Ok(None) => {
                            assert(false);
                        },
                        Ok(Some(m)) => {
                            if m.kind == RoundMetaKind::Vtxo {
                                assert(b =~= seq![b[0], b[1], b[2]]);
                                assert(psbt@.inputs[k as int] == with_witness(
                                    p.inputs[k as int],
                                    seq![
                                        b[0],
                                        p.inputs[k as int].tap_scripts[0].script,
                                        p.inputs[k as int].tap_scripts[0].control_block,
                                    ],
                                ));
                                assert(input_ready(p, k as int));
                                assert(signed_vtxo_input(
                                    p,
                                    psbt@.inputs[k as int],
                                    master_sk@,
                                    k as int,
                                ));
                            } else {
                                assert(b =~= seq![b[0]]);
                                assert(psbt@.inputs[k as int] == with_witness(
                                    p.inputs[k as int],
                                    seq![b[0]],
                                ));
                                assert(signed_connector_input(
                                    p,
                                    psbt@.inputs[k as int],
                                    master_sk@,
                                    k as int,
                                ));
                            }
                        },
                        Err(_) => {
                            assert(false);
                        },
                    }
                    assert(input_outcome(p, psbt@.inputs[k as int], master_sk@, k as int));
                    assert(psbt@.inputs[k as int].wf());
                    assert(psbt@.wf());
                }
            },
            None => {
                proof {
                    assert(planned_wit(p, master_sk@, k as int, witsv[k as int]));
                    assert(input_round_tag(p.inputs[k as int]) == Ok::<
                        Option<RoundMetaView>,
                        (),
                    >(None));
                    assert(psbt@.inputs[k as int] == p.inputs[k as int]);
                    assert(input_outcome(p, psbt@.inputs[k as int], master_sk@, k as int));
                }
            },
        }
        k = k + 1;
    }
    Ok(())
}

} // verus!

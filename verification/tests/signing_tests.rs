use ark_core::codec::{ClaimInput, RoundMetaKind};
use ark_core::cosign::sign_round_utxo_inputs;
use ark_core::enumerate::{spendable_expired_vtxos, RoundData, VtxoTreeSpec};
use ark_core::psbt::{Psbt, PsbtInput, TxOutData};
use ark_core::{CoreError, CONNECTOR_INPUT_WEIGHT, NODE_SPEND_WEIGHT};

use bitcoin::key::TapTweak;
use bitcoin::secp256k1::{schnorr, Keypair, Message, Secp256k1};
use bitcoin::sighash::{Prevouts, SighashCache, TapSighashType};
use bitcoin::taproot::{ControlBlock, LeafVersion, TapLeafHash, TaprootBuilder};
use bitcoin::{
    absolute, transaction, Amount, OutPoint, ScriptBuf, Sequence, Transaction, TxIn, TxOut,
    Witness,
};

fn checksig_script(xonly: &bitcoin::XOnlyPublicKey) -> ScriptBuf {
    bitcoin::script::Builder::new()
        .push_slice(&xonly.serialize())
        .push_opcode(bitcoin::opcodes::all::OP_CHECKSIG)
        .into_script()
}

fn tx_in(point: OutPoint) -> TxIn {
    TxIn {
        previous_output: point,
        script_sig: ScriptBuf::new(),
        sequence: Sequence::MAX,
        witness: Witness::new(),
    }
}

fn txid_bytes(txid: bitcoin::Txid) -> Vec<u8> {
    <bitcoin::Txid as bitcoin::hashes::Hash>::to_byte_array(txid).to_vec()
}

fn sighash_msg(sh: bitcoin::TapSighash) -> Message {
    Message::from_digest(<bitcoin::TapSighash as bitcoin::hashes::Hash>::to_byte_array(sh))
}

/// One expired round: an anchor transaction whose output 0 commits the
/// service's expiry leaf under the tree's aggregate key and whose output 1
/// is key-path spendable by the service.
struct RoundFixture {
    round: RoundData,
    anchor_txid: bitcoin::Txid,
    out0: TxOut,
    out1: TxOut,
    script: ScriptBuf,
    cb_bytes: Vec<u8>,
    spend_info: bitcoin::taproot::TaprootSpendInfo,
}

fn build_round(
    secp: &Secp256k1<bitcoin::secp256k1::All>,
    asp_x: bitcoin::XOnlyPublicKey,
    tree_internal_x: bitcoin::XOnlyPublicKey,
) -> RoundFixture {
    let script = checksig_script(&asp_x);
    assert_eq!(script.len(), 34);
    let spend_info = TaprootBuilder::new()
        .add_leaf(0, script.clone())
        .unwrap()
        .finalize(secp, tree_internal_x)
        .unwrap();
    let cb = spend_info
        .control_block(&(script.clone(), LeafVersion::TapScript))
        .unwrap();
    let cb_bytes = cb.serialize();
    assert_eq!(cb_bytes.len(), 33);
    let merkle = spend_info.merkle_root().unwrap();

    let out0 = TxOut {
        value: Amount::from_sat(50_000),
        script_pubkey: ScriptBuf::new_p2tr(secp, tree_internal_x, Some(merkle)),
    };
    let out1 = TxOut {
        value: Amount::from_sat(1_000),
        script_pubkey: ScriptBuf::new_p2tr(secp, asp_x, None),
    };
    let anchor = Transaction {
        version: transaction::Version::TWO,
        lock_time: absolute::LockTime::ZERO,
        input: vec![tx_in(OutPoint::null())],
        output: vec![out0.clone(), out1.clone()],
    };
    let anchor_txid = anchor.compute_txid();
    let round = RoundData {
        txid: txid_bytes(anchor_txid),
        tx_bytes: bitcoin::consensus::encode::serialize(&anchor),
        outputs: vec![
            TxOutData { value: 50_000, script_pubkey: out0.script_pubkey.to_bytes() },
            TxOutData { value: 1_000, script_pubkey: out1.script_pubkey.to_bytes() },
        ],
        expiry_height: 100,
        tree: VtxoTreeSpec {
            cosign_agg_pk: tree_internal_x.serialize().to_vec(),
            expiry_control_block: cb_bytes.clone(),
            expiry_script: script.to_bytes(),
            expiry_leaf_version: 0xc0,
            expiry_merkle_root: <bitcoin::TapNodeHash as bitcoin::hashes::Hash>::to_byte_array(
                merkle,
            )
            .to_vec(),
        },
    };
    RoundFixture { round, anchor_txid, out0, out1, script, cb_bytes, spend_info }
}

#[test]
fn end_to_end_round_reclamation() {
    let secp = Secp256k1::new();
    let asp_sk = vec![0x11u8; 32];
    let asp_kp = Keypair::from_seckey_slice(&secp, &asp_sk).unwrap();
    let (asp_x, _) = asp_kp.x_only_public_key();
    let user_kp = Keypair::from_seckey_slice(&secp, &[0x22u8; 32]).unwrap();
    let (tree_internal_x, _) = user_kp.x_only_public_key();
    let fx = build_round(&secp, asp_x, tree_internal_x);
    let asp_x_bytes = asp_x.serialize().to_vec();

    // Not yet expired at height 99; two entries at height 101.
    assert!(spendable_expired_vtxos(&vec![fx.round.clone()], &asp_x_bytes, 99).is_empty());
    let utxos = spendable_expired_vtxos(&vec![fx.round.clone()], &asp_x_bytes, 101);
    assert_eq!(utxos.len(), 2);
    assert_eq!(utxos[0].point.txid, txid_bytes(fx.anchor_txid));
    assert_eq!(utxos[0].point.vout, 0);
    assert_eq!(utxos[1].point.txid, txid_bytes(fx.anchor_txid));
    assert_eq!(utxos[1].point.vout, 1);
    assert_eq!(utxos[0].weight, NODE_SPEND_WEIGHT);
    assert_eq!(utxos[1].weight, CONNECTOR_INPUT_WEIGHT);
    assert_eq!(utxos[0].amount(), 50_000);
    assert_eq!(utxos[1].amount(), 1_000);

    // Determinism: a second call on the same state is identical.
    let again = spendable_expired_vtxos(&vec![fx.round.clone()], &asp_x_bytes, 101);
    assert_eq!(utxos, again);

    // Reclamation transaction spending (R:0) and (R:1).
    let spend = Transaction {
        version: transaction::Version::TWO,
        lock_time: absolute::LockTime::ZERO,
        input: vec![
            tx_in(OutPoint::new(fx.anchor_txid, 0)),
            tx_in(OutPoint::new(fx.anchor_txid, 1)),
        ],
        output: vec![
            TxOut {
                value: Amount::from_sat(48_000),
                script_pubkey: ScriptBuf::new_p2tr(&secp, asp_x, None),
            },
        ],
    };
    let mut psbt = Psbt {
        unsigned_tx: bitcoin::consensus::encode::serialize(&spend),
        inputs: vec![utxos[0].psbt.clone(), utxos[1].psbt.clone()],
    };
    sign_round_utxo_inputs(&mut psbt, &asp_sk).expect("cosigning succeeds");

    // Three-element script-path witness and one-element key-path witness,
    // both matching their declared weights.
    let wit0 = psbt.inputs[0].final_script_witness.clone().expect("vtxo witness set");
    assert_eq!(wit0.len(), 3);
    assert_eq!(wit0[0].len(), 64);
    assert_eq!(wit0[1], fx.script.to_bytes());
    assert_eq!(wit0[2], fx.cb_bytes);
    let wit1 = psbt.inputs[1].final_script_witness.clone().expect("connector witness set");
    assert_eq!(wit1.len(), 1);
    assert_eq!(wit1[0].len(), 64);
    assert_eq!(Witness::from_slice(&wit0).size() as u64, NODE_SPEND_WEIGHT);
    assert_eq!(Witness::from_slice(&wit1).size() as u64, CONNECTOR_INPUT_WEIGHT);

    // Input 0 passes taproot script-path validation.
    let prevouts = vec![fx.out0.clone(), fx.out1.clone()];
    let mut cache = SighashCache::new(&spend);
    let sh0 = cache
        .taproot_script_spend_signature_hash(
            0,
            &Prevouts::All(&prevouts),
            TapLeafHash::from_script(&fx.script, LeafVersion::TapScript),
            TapSighashType::Default,
        )
        .unwrap();
    let sig0 = schnorr::Signature::from_slice(&wit0[0]).unwrap();
    secp.verify_schnorr(&sig0, &sighash_msg(sh0), &asp_x).expect("leaf signature valid");
    let cb_parsed = ControlBlock::decode(&wit0[2]).unwrap();
    assert!(cb_parsed.verify_taproot_commitment(
        &secp,
        fx.spend_info.output_key().to_inner(),
        &fx.script
    ));

    // Input 1 passes taproot key-path validation against the tweaked key.
    let sh1 = cache
        .taproot_key_spend_signature_hash(1, &Prevouts::All(&prevouts), TapSighashType::Default)
        .unwrap();
    let sig1 = schnorr::Signature::from_slice(&wit1[0]).unwrap();
    let (tweaked, _) = asp_x.tap_tweak(&secp, None);
    secp.verify_schnorr(&sig1, &sighash_msg(sh1), &tweaked.to_inner())
        .expect("key-path signature valid");
}

#[test]
fn cosigner_selectivity() {
    let secp = Secp256k1::new();
    let asp_sk = vec![0x11u8; 32];
    let asp_kp = Keypair::from_seckey_slice(&secp, &asp_sk).unwrap();
    let (asp_x, _) = asp_kp.x_only_public_key();
    let user_kp = Keypair::from_seckey_slice(&secp, &[0x22u8; 32]).unwrap();
    let (user_x, _) = user_kp.x_only_public_key();
    let fx = build_round(&secp, asp_x, user_x);
    let asp_x_bytes = asp_x.serialize().to_vec();
    let utxos = spendable_expired_vtxos(&vec![fx.round.clone()], &asp_x_bytes, 101);

    // A collaborator's untagged funding input rides along.
    let funding_prevout = TxOut {
        value: Amount::from_sat(2_000),
        script_pubkey: ScriptBuf::new_p2tr(&secp, user_x, None),
    };
    let mut untagged = PsbtInput::new();
    untagged.witness_utxo = Some(
        TxOutData { value: 2_000, script_pubkey: funding_prevout.script_pubkey.to_bytes() },
    );

    let spend = Transaction {
        version: transaction::Version::TWO,
        lock_time: absolute::LockTime::ZERO,
        input: vec![
            tx_in(OutPoint::new(fx.anchor_txid, 0)),
            tx_in(OutPoint::new(fx.anchor_txid, 1)),
            tx_in(OutPoint::new(fx.anchor_txid, 7)),
        ],
        output: vec![
            TxOut {
                value: Amount::from_sat(50_000),
                script_pubkey: ScriptBuf::new_p2tr(&secp, asp_x, None),
            },
        ],
    };
    let mut psbt = Psbt {
        unsigned_tx: bitcoin::consensus::encode::serialize(&spend),
        inputs: vec![utxos[0].psbt.clone(), utxos[1].psbt.clone(), untagged],
    };
    sign_round_utxo_inputs(&mut psbt, &asp_sk).expect("cosigning succeeds");

    let wit0 = psbt.inputs[0].final_script_witness.clone().expect("tagged input signed");
    let wit1 = psbt.inputs[1].final_script_witness.clone().expect("tagged input signed");
    assert_eq!(Witness::from_slice(&wit0).size() as u64, utxos[0].weight);
    assert_eq!(Witness::from_slice(&wit1).size() as u64, utxos[1].weight);
    assert!(psbt.inputs[2].final_script_witness.is_none(), "untagged input untouched");
}

#[test]
fn corrupt_vtxo_input_fails_loudly() {
    let txid = vec![9u8; 32];
    // Tagged Vtxo but carrying no tap script: corruption by an earlier stage.
    let mut bad = PsbtInput::new();
    bad.witness_utxo = Some(TxOutData { value: 1_000, script_pubkey: vec![0x51] });
    bad.set_round_meta(&txid, RoundMetaKind::Vtxo);
    let mut other = PsbtInput::new();
    other.witness_utxo = Some(TxOutData { value: 2_000, script_pubkey: vec![0x51] });

    let mut psbt = Psbt { unsigned_tx: vec![], inputs: vec![bad, other] };
    let err = sign_round_utxo_inputs(&mut psbt, &vec![0x11u8; 32]).unwrap_err();
    assert_eq!(err, CoreError::MissingTapScript { input_index: 0 });
    assert!(psbt.inputs[0].final_script_witness.is_none());
    assert!(psbt.inputs[1].final_script_witness.is_none(), "other inputs unmodified");
}

#[test]
fn undecodable_round_tag_fails_loudly() {
    let mut bad = PsbtInput::new();
    bad.witness_utxo = Some(TxOutData { value: 1_000, script_pubkey: vec![0x51] });
    bad.set_prop(vec![0x61, 0x72, 0x6b], 1, vec![], vec![0xde, 0xad]);
    let mut psbt = Psbt { unsigned_tx: vec![], inputs: vec![bad] };
    let err = sign_round_utxo_inputs(&mut psbt, &vec![0x11u8; 32]).unwrap_err();
    assert_eq!(err, CoreError::CorruptMeta { input_index: 0 });
    assert!(psbt.inputs[0].final_script_witness.is_none());
}

#[test]
fn missing_witness_utxo_is_reported() {
    let mut input = PsbtInput::new();
    input.set_round_meta(&vec![9u8; 32], RoundMetaKind::Connector);
    let mut psbt = Psbt { unsigned_tx: vec![], inputs: vec![input] };
    let err = sign_round_utxo_inputs(&mut psbt, &vec![0x11u8; 32]).unwrap_err();
    assert_eq!(err, CoreError::MissingWitnessUtxo { input_index: 0 });
}

#[test]
fn exit_claim_witness_verifies() {
    let secp = Secp256k1::new();
    let user_sk = vec![0x33u8; 32];
    let user_kp = Keypair::from_seckey_slice(&secp, &user_sk).unwrap();
    let (user_x, _) = user_kp.x_only_public_key();
    let internal_kp = Keypair::from_seckey_slice(&secp, &[0x44u8; 32]).unwrap();
    let (internal_x, _) = internal_kp.x_only_public_key();

    // The pre-committed exit leaf: the user's key alone.
    let script = checksig_script(&user_x);
    let spend_info = TaprootBuilder::new()
        .add_leaf(0, script.clone())
        .unwrap()
        .finalize(&secp, internal_x)
        .unwrap();
    let cb_bytes = spend_info
        .control_block(&(script.clone(), LeafVersion::TapScript))
        .unwrap()
        .serialize();
    let vtxo_out = TxOut {
        value: Amount::from_sat(30_000),
        script_pubkey: ScriptBuf::new_p2tr(&secp, internal_x, spend_info.merkle_root()),
    };

    let funding = Transaction {
        version: transaction::Version::TWO,
        lock_time: absolute::LockTime::ZERO,
        input: vec![tx_in(OutPoint::null())],
        output: vec![vtxo_out.clone()],
    };
    let exit_tx = Transaction {
        version: transaction::Version::TWO,
        lock_time: absolute::LockTime::ZERO,
        input: vec![tx_in(OutPoint::new(funding.compute_txid(), 0))],
        output: vec![
            TxOut {
                value: Amount::from_sat(29_000),
                script_pubkey: ScriptBuf::new_p2tr(&secp, user_x, None),
            },
        ],
    };

    let claim = ClaimInput {
        user_pubkey: user_kp.public_key().serialize().to_vec(),
        exit_script: script.to_bytes(),
        exit_control_block: cb_bytes.clone(),
        satisfaction_weight: 135,
    };
    let mut input = PsbtInput::new();
    input.set_claim_input(&claim);

    let tx_bytes = bitcoin::consensus::encode::serialize(&exit_tx);
    let values = vec![30_000u64];
    let spks = vec![vtxo_out.script_pubkey.to_bytes()];

    // The wrong key is a caller error and writes nothing.
    let err = input
        .try_sign_claim_input(&tx_bytes, &values, &spks, 0, &vec![0x44u8; 32])
        .unwrap_err();
    assert_eq!(err, CoreError::KeyMismatch);
    assert!(input.final_script_witness.is_none());

    input
        .try_sign_claim_input(&tx_bytes, &values, &spks, 0, &user_sk)
        .expect("claim signs");
    let wit = input.final_script_witness.clone().expect("witness set");
    assert_eq!(wit.len(), 3);
    assert_eq!(wit[1], script.to_bytes());
    assert_eq!(wit[2], cb_bytes);
    assert_eq!(Witness::from_slice(&wit).size() as u64, 135);

    // The witness verifies under taproot script-path rules.
    let prevouts = vec![vtxo_out.clone()];
    let mut cache = SighashCache::new(&exit_tx);
    let sh = cache
        .taproot_script_spend_signature_hash(
            0,
            &Prevouts::All(&prevouts),
            TapLeafHash::from_script(&script, LeafVersion::TapScript),
            TapSighashType::Default,
        )
        .unwrap();
    let sig = schnorr::Signature::from_slice(&wit[0]).unwrap();
    secp.verify_schnorr(&sig, &sighash_msg(sh), &user_x).expect("exit signature valid");
    let cb_parsed = ControlBlock::decode(&wit[2]).unwrap();
    assert!(cb_parsed.verify_taproot_commitment(
        &secp,
        spend_info.output_key().to_inner(),
        &script
    ));
}

#[test]
fn exit_claim_untagged_is_noop() {
    let mut input = PsbtInput::new();
    input
        .try_sign_claim_input(&vec![], &vec![], &vec![], 0, &vec![0x33u8; 32])
        .expect("untagged input is not our concern");
    assert!(input.final_script_witness.is_none());
    assert_eq!(input.get_claim_input(), Ok(None));
}

#[test]
fn exit_claim_weight_mismatch_is_reported() {
    let secp = Secp256k1::new();
    let user_sk = vec![0x33u8; 32];
    let user_kp = Keypair::from_seckey_slice(&secp, &user_sk).unwrap();
    let (user_x, _) = user_kp.x_only_public_key();
    let script = checksig_script(&user_x);
    let claim = ClaimInput {
        user_pubkey: user_kp.public_key().serialize().to_vec(),
        exit_script: script.to_bytes(),
        exit_control_block: vec![0xc1; 33],
        satisfaction_weight: 999,
    };
    let mut input = PsbtInput::new();
    input.set_claim_input(&claim);

    // A real transaction so the sighash itself succeeds.
    let prev = TxOut {
        value: Amount::from_sat(5_000),
        script_pubkey: ScriptBuf::new_p2tr(&secp, user_x, None),
    };
    let funding = Transaction {
        version: transaction::Version::TWO,
        lock_time: absolute::LockTime::ZERO,
        input: vec![tx_in(OutPoint::null())],
        output: vec![prev.clone()],
    };
    let spend = Transaction {
        version: transaction::Version::TWO,
        lock_time: absolute::LockTime::ZERO,
        input: vec![tx_in(OutPoint::new(funding.compute_txid(), 0))],
        output: vec![prev.clone()],
    };
    let err = input
        .try_sign_claim_input(
            &bitcoin::consensus::encode::serialize(&spend),
            &vec![5_000u64],
            &vec![prev.script_pubkey.to_bytes()],
            0,
            &user_sk,
        )
        .unwrap_err();
    assert_eq!(err, CoreError::WitnessWeightMismatch { input_index: 0 });
    assert!(input.final_script_witness.is_none());
}

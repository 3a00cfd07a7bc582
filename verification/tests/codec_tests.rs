use ark_core::codec::{
    decode_claim_input, decode_round_meta, encode_claim_input, encode_round_meta, ClaimInput,
    RoundMeta, RoundMetaKind,
};
use ark_core::psbt::{PsbtInput, SUBTYPE_CLAIM_INPUT, SUBTYPE_ROUND_META};

fn sample_txid() -> Vec<u8> {
    (0u8..32u8).collect()
}

fn sample_claim() -> ClaimInput {
    ClaimInput {
        user_pubkey: vec![2u8; 33],
        exit_script: vec![0x51, 0x52, 0x53],
        exit_control_block: vec![0xc0; 33],
        satisfaction_weight: 135,
    }
}

#[test]
fn round_meta_round_trip() {
    for kind in [RoundMetaKind::Vtxo, RoundMetaKind::Connector] {
        let m = RoundMeta { round_txid: sample_txid(), kind };
        let enc = encode_round_meta(&m);
        assert_eq!(enc.len(), 33);
        let back = decode_round_meta(&enc).expect("decodes");
        assert_eq!(back, m);
    }
}

#[test]
fn round_meta_rejects_malformed() {
    assert!(decode_round_meta(&vec![]).is_none());
    assert!(decode_round_meta(&vec![0u8; 32]).is_none());
    assert!(decode_round_meta(&vec![0u8; 34]).is_none());
    let mut bad_kind = sample_txid();
    bad_kind.push(2);
    assert!(decode_round_meta(&bad_kind).is_none());
}

#[test]
fn claim_input_round_trip() {
    let c = sample_claim();
    let enc = encode_claim_input(&c);
    assert_eq!(enc.len(), 33 + 8 + 4 + 3 + 4 + 33);
    let back = decode_claim_input(&enc).expect("decodes");
    assert_eq!(back, c);
}

#[test]
fn claim_input_round_trip_empty_script() {
    let c = ClaimInput {
        user_pubkey: vec![3u8; 33],
        exit_script: vec![],
        exit_control_block: vec![],
        satisfaction_weight: 0,
    };
    let enc = encode_claim_input(&c);
    let back = decode_claim_input(&enc).expect("decodes");
    assert_eq!(back, c);
}

#[test]
fn claim_input_rejects_malformed() {
    assert!(decode_claim_input(&vec![]).is_none());
    assert!(decode_claim_input(&vec![0u8; 44]).is_none());
    let c = sample_claim();
    let mut enc = encode_claim_input(&c);
    enc.push(0);
    assert!(decode_claim_input(&enc).is_none(), "trailing byte is corruption");
    let enc2 = encode_claim_input(&c);
    assert!(decode_claim_input(&enc2[..enc2.len() - 1].to_vec()).is_none());
}

#[test]
fn fresh_input_has_no_tags() {
    let input = PsbtInput::new();
    assert_eq!(input.get_round_meta(), Ok(None));
    assert_eq!(input.get_claim_input(), Ok(None));
}

#[test]
fn tags_read_back() {
    let mut input = PsbtInput::new();
    input.set_round_meta(&sample_txid(), RoundMetaKind::Vtxo);
    let m = input.get_round_meta().expect("not corrupt").expect("present");
    assert_eq!(m.round_txid, sample_txid());
    assert_eq!(m.kind, RoundMetaKind::Vtxo);

    let mut input2 = PsbtInput::new();
    input2.set_claim_input(&sample_claim());
    let c = input2.get_claim_input().expect("not corrupt").expect("present");
    assert_eq!(c, sample_claim());
}

#[test]
fn tag_isolation() {
    let mut input = PsbtInput::new();
    input.set_round_meta(&sample_txid(), RoundMetaKind::Connector);
    assert_eq!(input.get_claim_input(), Ok(None), "round tag must not look like a claim");

    let mut input2 = PsbtInput::new();
    input2.set_claim_input(&sample_claim());
    assert_eq!(input2.get_round_meta(), Ok(None), "claim tag must not look like a round tag");

    // Both tags together: each reads back its own value.
    input.set_claim_input(&sample_claim());
    assert_eq!(
        input.get_round_meta().unwrap().unwrap().kind,
        RoundMetaKind::Connector
    );
    assert_eq!(input.get_claim_input().unwrap().unwrap(), sample_claim());
}

#[test]
fn present_but_malformed_tag_is_corruption() {
    let mut input = PsbtInput::new();
    let prefix = vec![0x61, 0x72, 0x6b];
    input.set_prop(prefix.clone(), SUBTYPE_ROUND_META, vec![], vec![1, 2, 3]);
    assert_eq!(input.get_round_meta(), Err(()));
    let mut input2 = PsbtInput::new();
    input2.set_prop(prefix, SUBTYPE_CLAIM_INPUT, vec![], vec![9]);
    assert_eq!(input2.get_claim_input(), Err(()));
}

#[test]
fn foreign_proprietary_keys_are_ignored() {
    let mut input = PsbtInput::new();
    input.set_prop(vec![0x78, 0x79], 1, vec![], vec![7, 7, 7]);
    assert_eq!(input.get_round_meta(), Ok(None));
    assert_eq!(input.get_claim_input(), Ok(None));
}

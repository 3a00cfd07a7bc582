//! Plain-value model of the PSBT input fields this core reads and writes.
//!
//! The settlement logic only touches a small slice of a PSBT input: the
//! witness UTXO, the taproot signing fields, the proprietary key/value map
//! and the final witness.  Those fields are held here as plain byte vectors,
//! so every rule about them is verified; converting to and from the wire
//! PSBT structure is the caller's concern.
//!
//! The proprietary map holds this system's two tags under a namespaced key:
//! the fixed ASCII prefix, one subtype byte per tag kind, and an empty key
//! suffix, so at most one value of each kind sits on an input.  A present
//! tag that does not decode is corruption and is reported as an error; an
//! absent tag is an ordinary `None`.

use vstd::prelude::*;

use crate::codec::{
    bytes_eq, copy_bytes, decode_claim_input, decode_round_meta, encode_claim_input,
    encode_round_meta, spec_decode_claim_input, spec_decode_round_meta, spec_encode_claim_input,
    spec_encode_round_meta, ClaimInput, ClaimInputView, RoundMeta, RoundMetaKind, RoundMetaView,
};

verus! {

// ---------------------------------------------------------------------------
// Model structs and views
// ---------------------------------------------------------------------------

/// An output being spent: its amount in satoshi and its scriptPubKey.
#[derive(Debug, Clone, PartialEq, Eq)]
pub struct TxOutData {
    pub value: u64,
    pub script_pubkey: Vec<u8>,
}

#[verifier::ext_equal]
pub ghost struct TxOutView {
    pub value: u64,
    pub script_pubkey: Seq<u8>,
}

impl View for TxOutData {
    type V = TxOutView;

    open spec fn view(&self) -> TxOutView {
        TxOutView { value: self.value, script_pubkey: self.script_pubkey@ }
    }
}

/// One committed tap-script of an input: the control block proving the
/// leaf, the leaf script itself, and the leaf version byte.
#[derive(Debug, Clone, PartialEq, Eq)]
pub struct TapScriptEntry {
    pub control_block: Vec<u8>,
    pub script: Vec<u8>,
    pub leaf_version: u8,
}

#[verifier::ext_equal]
pub ghost struct TapScriptEntryView {
    pub control_block: Seq<u8>,
    pub script: Seq<u8>,
    pub leaf_version: u8,
}

impl View for TapScriptEntry {
    type V = TapScriptEntryView;

    open spec fn view(&self) -> TapScriptEntryView {
        TapScriptEntryView {
            control_block: self.control_block@,
            script: self.script@,
            leaf_version: self.leaf_version,
        }
    }
}

/// One proprietary key/value pair of a PSBT input.
#[derive(Debug, Clone, PartialEq, Eq)]
pub struct PropEntry {
    pub prefix: Vec<u8>,
    pub subtype: u8,
    pub keydata: Vec<u8>,
    pub value: Vec<u8>,
}

#[verifier::ext_equal]
pub ghost struct PropKeyView {
    pub prefix: Seq<u8>,
    pub subtype: u8,
    pub keydata: Seq<u8>,
}

#[verifier::ext_equal]
pub ghost struct PropEntryView {
    pub key: PropKeyView,
    pub value: Seq<u8>,
}

impl View for PropEntry {
    type V = PropEntryView;

    open spec fn view(&self) -> PropEntryView {
        PropEntryView {
            key: PropKeyView {
                prefix: self.prefix@,
                subtype: self.subtype,
                keydata: self.keydata@,
            },
            value: self.value@,
        }
    }
}

/// The slice of a PSBT input that the settlement core works on.
#[derive(Debug, Clone, PartialEq, Eq)]
pub struct PsbtInput {
    pub witness_utxo: Option<TxOutData>,
    pub sighash_type: Option<u8>,
    pub tap_internal_key: Option<Vec<u8>>,
    pub tap_scripts: Vec<TapScriptEntry>,
    pub tap_merkle_root: Option<Vec<u8>>,
    pub non_witness_utxo: Option<Vec<u8>>,
    pub proprietary: Vec<PropEntry>,
    pub final_script_witness: Option<Vec<Vec<u8>>>,
}

#[verifier::ext_equal]
pub ghost struct PsbtInputView {
    pub witness_utxo: Option<TxOutView>,
    pub sighash_type: Option<u8>,
    pub tap_internal_key: Option<Seq<u8>>,
    pub tap_scripts: Seq<TapScriptEntryView>,
    pub tap_merkle_root: Option<Seq<u8>>,
    pub non_witness_utxo: Option<Seq<u8>>,
    pub proprietary: Seq<PropEntryView>,
    pub final_script_witness: Option<Seq<Seq<u8>>>,
}

impl View for PsbtInput {
    type V = PsbtInputView;

    open spec fn view(&self) -> PsbtInputView {
        PsbtInputView {
            witness_utxo: match self.witness_utxo {
                Some(t) => Some(t@),
                None => None,
            },
            sighash_type: self.sighash_type,
            tap_internal_key: match self.tap_internal_key {
                Some(k) => Some(k@),
                None => None,
            },
            tap_scripts: self.tap_scripts@.map_values(|e: TapScriptEntry| e@),
            tap_merkle_root: match self.tap_merkle_root {
                Some(k) => Some(k@),
                None => None,
            },
            non_witness_utxo: match self.non_witness_utxo {
                Some(k) => Some(k@),
                None => None,
            },
            proprietary: self.proprietary@.map_values(|e: PropEntry| e@),
            final_script_witness: match self.final_script_witness {
                Some(w) => Some(crate::codec::bytes_view(w@)),
                None => None,
            },
        }
    }
}

/// A partially signed transaction, as far as the settlement core reads it:
/// the serialized unsigned transaction and its per-input maps.
#[derive(Debug, Clone, PartialEq, Eq)]
pub struct Psbt {
    pub unsigned_tx: Vec<u8>,
    pub inputs: Vec<PsbtInput>,
}

#[verifier::ext_equal]
pub ghost struct PsbtView {
    pub unsigned_tx: Seq<u8>,
    pub inputs: Seq<PsbtInputView>,
}

impl View for Psbt {
    type V = PsbtView;

    open spec fn view(&self) -> PsbtView {
        PsbtView {
            unsigned_tx: self.unsigned_tx@,
            inputs: self.inputs@.map_values(|x: PsbtInput| x@),
        }
    }
}

impl PsbtView {
    pub open spec fn wf(&self) -> bool {
        forall|i: int| 0 <= i < self.inputs.len() ==> (#[trigger] self.inputs[i]).wf()
    }
}

// ---------------------------------------------------------------------------
// The proprietary map as a partial function from keys to values
// ---------------------------------------------------------------------------

pub open spec fn unique_keys(s: Seq<PropEntryView>) -> bool {
    forall|i: int, j: int| 0 <= i < j < s.len() ==> s[i].key != s[j].key
}

pub open spec fn has_prop(s: Seq<PropEntryView>, k: PropKeyView) -> bool {
    exists|i: int| 0 <= i < s.len() && s[i].key == k
}

pub open spec fn prop_idx(s: Seq<PropEntryView>, k: PropKeyView) -> int {
    choose|i: int| 0 <= i < s.len() && s[i].key == k
}

/// The value stored under key `k`, if any.
pub open spec fn prop_get(s: Seq<PropEntryView>, k: PropKeyView) -> Option<Seq<u8>> {
    if has_prop(s, k) {
        Some(s[prop_idx(s, k)].value)
    } else {
        None
    }
}

impl PsbtInputView {
    pub open spec fn wf(&self) -> bool {
        &&& unique_keys(self.proprietary)
        &&& forall|i: int|
            0 <= i < self.tap_scripts.len() ==> (#[trigger] self.tap_scripts[i]).script.len()
                < 0x1_0000_0000 && self.tap_scripts[i].control_block.len() < 0x1_0000_0000
    }
}

// ---------------------------------------------------------------------------
// This system's namespaced keys
// ---------------------------------------------------------------------------

/// ASCII "ark": the namespace of this system's proprietary keys.
pub open spec fn prop_key_prefix() -> Seq<u8> {
    seq![0x61u8, 0x72u8, 0x6bu8]
}

pub const SUBTYPE_ROUND_META: u8 = 1;

pub const SUBTYPE_CLAIM_INPUT: u8 = 2;

pub open spec fn round_meta_key() -> PropKeyView {
    PropKeyView { prefix: prop_key_prefix(), subtype: SUBTYPE_ROUND_META, keydata: Seq::empty() }
}

pub open spec fn claim_input_key() -> PropKeyView {
    PropKeyView { prefix: prop_key_prefix(), subtype: SUBTYPE_CLAIM_INPUT, keydata: Seq::empty() }
}

/// The two tag kinds live under distinct keys: this is what keeps one tag's
/// writes invisible to the other tag's reads.
pub proof fn lemma_keys_distinct()
    ensures
        round_meta_key() != claim_input_key(),
{
    assert(round_meta_key().subtype != claim_input_key().subtype);
}

fn prop_key_prefix_vec() -> (r: Vec<u8>)
    ensures
        r@ == prop_key_prefix(),
{
    let mut v: Vec<u8> = Vec::new();
    v.push(0x61);
    v.push(0x72);
    v.push(0x6b);
    assert(v@ =~= prop_key_prefix());
    v
}

// ---------------------------------------------------------------------------
// Lemmas about updating the map
// ---------------------------------------------------------------------------

proof fn lemma_prop_update(s: Seq<PropEntryView>, i: int, e: PropEntryView)
    requires
        unique_keys(s),
        0 <= i < s.len(),
        s[i].key == e.key,
    ensures
        unique_keys(s.update(i, e)),
        prop_get(s.update(i, e), e.key) == Some(e.value),
        forall|k2: PropKeyView|
            k2 != e.key ==> #[trigger] prop_get(s.update(i, e), k2) == prop_get(s, k2),
{
    let s2 = s.update(i, e);
    assert(forall|j: int| 0 <= j < s.len() ==> (#[trigger] s2[j]).key == s[j].key);
    assert(has_prop(s2, e.key)) by {
        assert(s2[i].key == e.key);
    }
    let ii = prop_idx(s2, e.key);
    assert(0 <= ii < s2.len() && s2[ii].key == e.key);
    if ii != i {
        if ii < i {
            assert(s[ii].key != s[i].key);
        } else {
            assert(s[i].key != s[ii].key);
        }
        assert(false);
    }
    assert(prop_get(s2, e.key) == Some(e.value));
    assert forall|k2: PropKeyView| k2 != e.key implies #[trigger] prop_get(s2, k2) == prop_get(
        s,
        k2,
    ) by {
        if has_prop(s2, k2) {
            let a = prop_idx(s2, k2);
            assert(0 <= a < s2.len() && s2[a].key == k2);
            assert(a != i);
            assert(s[a].key == k2);
            assert(has_prop(s, k2));
            let b = prop_idx(s, k2);
            assert(0 <= b < s.len() && s[b].key == k2);
            if a != b {
                if a < b {
                    assert(s[a].key != s[b].key);
                } else {
                    assert(s[b].key != s[a].key);
                }
                assert(false);
            }
            assert(prop_get(s2, k2) == Some(s2[a].value));
            assert(prop_get(s, k2) == Some(s[b].value));
        } else {
            if has_prop(s, k2) {
                let b = prop_idx(s, k2);
                assert(0 <= b < s.len() && s[b].key == k2);
                assert(b != i);
                assert(s2[b].key == k2);
                assert(has_prop(s2, k2));
                assert(false);
            }
        }
    }
}

proof fn lemma_prop_push(s: Seq<PropEntryView>, e: PropEntryView)
    requires
        unique_keys(s),
        !has_prop(s, e.key),
    ensures
        unique_keys(s.push(e)),
        prop_get(s.push(e), e.key) == Some(e.value),
        forall|k2: PropKeyView|
            k2 != e.key ==> #[trigger] prop_get(s.push(e), k2) == prop_get(s, k2),
{
    let s2 = s.push(e);
    assert(forall|j: int| 0 <= j < s.len() ==> (#[trigger] s2[j]) == s[j]);
    assert(s2[s.len() as int] == e);
    assert(forall|j: int| 0 <= j < s.len() ==> (#[trigger] s[j]).key != e.key);
    assert(unique_keys(s2)) by {
        assert forall|i: int, j: int| 0 <= i < j < s2.len() implies s2[i].key != s2[j].key by {
            if j < s.len() {
                assert(s[i].key != s[j].key);
            } else {
                assert(s[i].key != e.key);
            }
        }
    }
    assert(has_prop(s2, e.key)) by {
        assert(s2[s.len() as int].key == e.key);
    }
    let ii = prop_idx(s2, e.key);
    assert(0 <= ii < s2.len() && s2[ii].key == e.key);
    if ii != s.len() as int {
        assert(s[ii].key == e.key);
        assert(false);
    }
    assert(prop_get(s2, e.key) == Some(e.value));
    assert forall|k2: PropKeyView| k2 != e.key implies #[trigger] prop_get(s2, k2) == prop_get(
        s,
        k2,
    ) by {
        if has_prop(s2, k2) {
            let a = prop_idx(s2, k2);
            assert(0 <= a < s2.len() && s2[a].key == k2);
            assert(a != s.len() as int);
            assert(s[a].key == k2);
            assert(has_prop(s, k2));
            let b = prop_idx(s, k2);
            assert(0 <= b < s.len() && s[b].key == k2);
            if a != b {
                if a < b {
                    assert(s[a].key != s[b].key);
                } else {
                    assert(s[b].key != s[a].key);
                }
                assert(false);
            }
        } else {
            if has_prop(s, k2) {
                let b = prop_idx(s, k2);
                assert(s2[b].key == k2);
                assert(has_prop(s2, k2));
                assert(false);
            }
        }
    }
}

// ---------------------------------------------------------------------------
// Executable map operations
// ---------------------------------------------------------------------------

/// All fields but the proprietary map are equal.
pub open spec fn same_except_proprietary(a: PsbtInputView, b: PsbtInputView) -> bool {
    &&& a.witness_utxo == b.witness_utxo
    &&& a.sighash_type == b.sighash_type
    &&& a.tap_internal_key == b.tap_internal_key
    &&& a.tap_scripts == b.tap_scripts
    &&& a.tap_merkle_root == b.tap_merkle_root
    &&& a.non_witness_utxo == b.non_witness_utxo
    &&& a.final_script_witness == b.final_script_witness
}

impl PsbtInput {
    /// A freshly constructed input: every field empty.
    pub fn new() -> (r: PsbtInput)
        ensures
            r@.wf(),
            r@.witness_utxo is None,
            r@.sighash_type is None,
            r@.tap_internal_key is None,
            r@.tap_scripts == Seq::<TapScriptEntryView>::empty(),
            r@.tap_merkle_root is None,
            r@.non_witness_utxo is None,
            r@.proprietary == Seq::<PropEntryView>::empty(),
            r@.final_script_witness is None,
    {
        let r = PsbtInput {
            witness_utxo: None,
            sighash_type: None,
            tap_internal_key: None,
            tap_scripts: Vec::new(),
            tap_merkle_root: None,
            non_witness_utxo: None,
            proprietary: Vec::new(),
            final_script_witness: None,
        };
        assert(r@.tap_scripts =~= Seq::<TapScriptEntryView>::empty());
        assert(r@.proprietary =~= Seq::<PropEntryView>::empty());
        r
    }

    /// Looks up the value under the given proprietary key.
    pub fn get_prop(&self, prefix: &Vec<u8>, subtype: u8, keydata: &Vec<u8>) -> (r: Option<
        Vec<u8>,
    >)
        requires
            self@.wf(),
        ensures
            match r {
                Some(v) => prop_get(
                    self@.proprietary,
                    PropKeyView { prefix: prefix@, subtype, keydata: keydata@ },
                ) == Some(v@),
                None => prop_get(
                    self@.proprietary,
                    PropKeyView { prefix: prefix@, subtype, keydata: keydata@ },
                ) is None,
            },
    {
        let ghost k = PropKeyView { prefix: prefix@, subtype, keydata: keydata@ };
        let ghost s = self@.proprietary;
        let mut i: usize = 0;
        while i < self.proprietary.len()
            invariant
                self@.wf(),
                s == self@.proprietary,
                k == (PropKeyView { prefix: prefix@, subtype, keydata: keydata@ }),
                i <= s.len(),
                forall|j: int| 0 <= j < i ==> (#[trigger] s[j]).key != k,
            decreases s.len() - i,
        {
            let e = &self.proprietary[i];
            if bytes_eq(&e.prefix, prefix) && e.subtype == subtype && bytes_eq(&e.keydata, keydata)
            {
                let v = copy_bytes(&e.value);
                proof {
                    assert(s[i as int].key =~= k);
                    assert(has_prop(s, k));
                    let ii = prop_idx(s, k);
                    assert(0 <= ii < s.len() && s[ii].key == k);
                    if ii != i as int {
                        if ii < i as int {
                            assert(s[ii].key != s[i as int].key);
                        } else {
                            assert(s[i as int].key != s[ii].key);
                        }
                        assert(false);
                    }
                    assert(prop_get(s, k) == Some(s[i as int].value));
                }
                return Some(v);
            }
            proof {
                assert(s[i as int].key != k);
            }
            i = i + 1;
        }
        proof {
            if has_prop(s, k) {
                let ii = prop_idx(s, k);
                assert(s[ii].key == k);
                assert(false);
            }
        }
        None
    }

    /// Stores `value` under the given proprietary key, replacing any value
    /// already there.  Every other key, and every other field of the input,
    /// is untouched.
    pub fn set_prop(&mut self, prefix: Vec<u8>, subtype: u8, keydata: Vec<u8>, value: Vec<u8>)
        requires
            old(self)@.wf(),
        ensures
            final(self)@.wf(),
            prop_get(
                final(self)@.proprietary,
                PropKeyView { prefix: prefix@, subtype, keydata: keydata@ },
            ) == Some(value@),
            forall|k2: PropKeyView|
                k2 != (PropKeyView { prefix: prefix@, subtype, keydata: keydata@ })
                    ==> #[trigger] prop_get(final(self)@.proprietary, k2) == prop_get(
                    old(self)@.proprietary,
                    k2,
                ),
            same_except_proprietary(final(self)@, old(self)@),
            old(self)@.proprietary.len() == 0 ==> final(self)@.proprietary =~= seq![
                PropEntryView {
                    key: PropKeyView { prefix: prefix@, subtype, keydata: keydata@ },
                    value: value@,
                },
            ],
    {
        let ghost k = PropKeyView { prefix: prefix@, subtype, keydata: keydata@ };
        let ghost s = self@.proprietary;
        let mut i: usize = 0;
        let n = self.proprietary.len();
        while i < n
            invariant
                self@.wf(),
                n == s.len(),
                s == self@.proprietary,
                self == old(self),
                k == (PropKeyView { prefix: prefix@, subtype, keydata: keydata@ }),
                i <= s.len(),
                forall|j: int| 0 <= j < i ==> (#[trigger] s[j]).key != k,
            decreases s.len() - i,
        {
            let e = &self.proprietary[i];
            if bytes_eq(&e.prefix, &prefix) && e.subtype == subtype && bytes_eq(
                &e.keydata,
                &keydata,
            ) {
                let entry = PropEntry { prefix, subtype, keydata, value };
                proof {
                    assert(s[i as int].key =~= k);
                    assert(entry@.key =~= k);
                }
                self.proprietary.remove(i);
                self.proprietary.insert(i, entry);
                proof {
                    assert(self@.proprietary =~= s.update(i as int, entry@));
                    lemma_prop_update(s, i as int, entry@);
                    assert(unique_keys(self@.proprietary));
                    assert(self@.tap_scripts == old(self)@.tap_scripts);
                    assert(self@.wf());
                }
                return ;
            }
            proof {
                assert(s[i as int].key != k);
            }
            i = i + 1;
        }
        let entry = PropEntry { prefix, subtype, keydata, value };
        proof {
            assert(entry@.key =~= k);
            if has_prop(s, k) {
                let ii = prop_idx(s, k);
                assert(s[ii].key == k);
                assert(false);
            }
        }
        self.proprietary.push(entry);
        proof {
            assert(self@.proprietary =~= s.push(entry@));
            lemma_prop_push(s, entry@);
            assert(unique_keys(self@.proprietary));
            assert(self@.tap_scripts == old(self)@.tap_scripts);
            assert(self@.wf());
            if s.len() == 0 {
                assert(self@.proprietary =~= seq![
                    PropEntryView { key: k, value: entry@.value },
                ]);
            }
        }
    }
}

// ---------------------------------------------------------------------------
// The two tags
// ---------------------------------------------------------------------------

impl PsbtInput {
    /// Attaches a `RoundMeta` tag, as the enumerator does on the inputs it
    /// produces.  No other proprietary key and no other field changes, so in
    /// particular the `ClaimInput` tag (under its distinct key) is untouched.
    pub fn set_round_meta(&mut self, round_txid: &Vec<u8>, kind: RoundMetaKind)
        requires
            old(self)@.wf(),
            round_txid@.len() == 32,
        ensures
            final(self)@.wf(),
            prop_get(final(self)@.proprietary, round_meta_key()) == Some(
                spec_encode_round_meta(RoundMetaView { round_txid: round_txid@, kind }),
            ),
            forall|k2: PropKeyView|
                k2 != round_meta_key() ==> #[trigger] prop_get(final(self)@.proprietary, k2)
                    == prop_get(old(self)@.proprietary, k2),
            prop_get(final(self)@.proprietary, claim_input_key()) == prop_get(
                old(self)@.proprietary,
                claim_input_key(),
            ),
            same_except_proprietary(final(self)@, old(self)@),
            old(self)@.proprietary.len() == 0 ==> final(self)@.proprietary =~= seq![
                PropEntryView {
                    key: round_meta_key(),
                    value: spec_encode_round_meta(
                        RoundMetaView { round_txid: round_txid@, kind },
                    ),
                },
            ],
    {
        let m = RoundMeta { round_txid: copy_bytes(round_txid), kind };
        let enc = encode_round_meta(&m);
        let prefix = prop_key_prefix_vec();
        let keydata: Vec<u8> = Vec::new();
        proof {
            assert((PropKeyView { prefix: prefix@, subtype: SUBTYPE_ROUND_META, keydata: keydata@ })
                =~= round_meta_key());
        }
        self.set_prop(prefix, SUBTYPE_ROUND_META, keydata, enc);
        proof {
            lemma_keys_distinct();
        }
    }

    /// Reads the `RoundMeta` tag: `Ok(None)` when absent, `Err` when a tag
    /// is present but does not decode (corruption by an earlier stage).
    pub fn get_round_meta(&self) -> (r: Result<Option<RoundMeta>, ()>)
        requires
            self@.wf(),
        ensures
            match r {
                Ok(None) => prop_get(self@.proprietary, round_meta_key()) is None,
                Ok(Some(m)) => {
                    &&& m@.wf()
                    &&& prop_get(self@.proprietary, round_meta_key()) matches Some(b)
                        && spec_decode_round_meta(b) == Some(m@)
                },
                Err(_) => prop_get(self@.proprietary, round_meta_key()) matches Some(b)
                    && spec_decode_round_meta(b) is None,
            },
    {
        let prefix = prop_key_prefix_vec();
        let keydata: Vec<u8> = Vec::new();
        proof {
            assert((PropKeyView { prefix: prefix@, subtype: SUBTYPE_ROUND_META, keydata: keydata@ })
                =~= round_meta_key());
        }
        match self.get_prop(&prefix, SUBTYPE_ROUND_META, &keydata) {
            None => Ok(None),
            Some(bytes) => match decode_round_meta(&bytes) {
                Some(m) => Ok(Some(m)),
                None => Err(()),
            },
        }
    }

    /// Attaches a `ClaimInput` tag, as the exit-package assembly stage does.
    /// No other proprietary key and no other field changes, so in particular
    /// the `RoundMeta` tag (under its distinct key) is untouched.
    pub fn set_claim_input(&mut self, claim: &ClaimInput)
        requires
            old(self)@.wf(),
            claim@.wf(),
        ensures
            final(self)@.wf(),
            prop_get(final(self)@.proprietary, claim_input_key()) == Some(
                spec_encode_claim_input(claim@),
            ),
            forall|k2: PropKeyView|
                k2 != claim_input_key() ==> #[trigger] prop_get(final(self)@.proprietary, k2)
                    == prop_get(old(self)@.proprietary, k2),
            prop_get(final(self)@.proprietary, round_meta_key()) == prop_get(
                old(self)@.proprietary,
                round_meta_key(),
            ),
            same_except_proprietary(final(self)@, old(self)@),
    {
        let enc = encode_claim_input(claim);
        let prefix = prop_key_prefix_vec();
        let keydata: Vec<u8> = Vec::new();
        proof {
            assert((PropKeyView {
                prefix: prefix@,
                subtype: SUBTYPE_CLAIM_INPUT,
                keydata: keydata@,
            }) =~= claim_input_key());
        }
        self.set_prop(prefix, SUBTYPE_CLAIM_INPUT, keydata, enc);
        proof {
            lemma_keys_distinct();
        }
    }

    /// Reads the `ClaimInput` tag: `Ok(None)` when absent, `Err` when a tag
    /// is present but does not decode (corruption by an earlier stage).
    pub fn get_claim_input(&self) -> (r: Result<Option<ClaimInput>, ()>)
        requires
            self@.wf(),
        ensures
            match r {
                Ok(None) => prop_get(self@.proprietary, claim_input_key()) is None,
                Ok(Some(c)) => {
                    &&& c@.wf()
                    &&& prop_get(self@.proprietary, claim_input_key()) matches Some(b)
                        && spec_decode_claim_input(b) == Some(c@)
                },
                Err(_) => prop_get(self@.proprietary, claim_input_key()) matches Some(b)
                    && spec_decode_claim_input(b) is None,
            },
    {
        let prefix = prop_key_prefix_vec();
        let keydata: Vec<u8> = Vec::new();
        proof {
            assert((PropKeyView {
                prefix: prefix@,
                subtype: SUBTYPE_CLAIM_INPUT,
                keydata: keydata@,
            }) =~= claim_input_key());
        }
        match self.get_prop(&prefix, SUBTYPE_CLAIM_INPUT, &keydata) {
            None => Ok(None),
            Some(bytes) => match decode_claim_input(&bytes) {
                Some(c) => Ok(Some(c)),
                None => Err(()),
            },
        }
    }
}

} // verus!

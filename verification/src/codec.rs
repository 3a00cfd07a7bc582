//! Deterministic binary codec for the proprietary PSBT metadata.
//!
//! Two tagged values travel inside PSBT inputs under this system's
//! namespaced proprietary keys: `RoundMeta`, attached by the enumerator and
//! read by the round cosigner, and `ClaimInput`, attached when a unilateral
//! exit package is assembled and read by the exit-claim signer.  Both codecs
//! are strict: decoding rejects any byte string that is not exactly the
//! encoding of a legal value, and encoding then decoding returns the value
//! unchanged.

use vstd::prelude::*;

verus! {

// ---------------------------------------------------------------------------
// Byte-vector helpers
// ---------------------------------------------------------------------------

/// Appends all of `src` to `out`.
pub fn push_bytes(out: &mut Vec<u8>, src: &Vec<u8>)
    ensures
        final(out)@ == old(out)@ + src@,
{
    let mut i: usize = 0;
    assert(out@ =~= old(out)@ + src@.subrange(0, 0));
    while i < src.len()
        invariant
            i <= src@.len(),
            out@ == old(out)@ + src@.subrange(0, i as int),
        decreases src@.len() - i,
    {
        out.push(src[i]);
        assert(out@ =~= old(out)@ + src@.subrange(0, i + 1));
        i = i + 1;
    }
    assert(out@ =~= old(out)@ + src@);
}

/// Returns a fresh copy of `src`.
pub fn copy_bytes(src: &Vec<u8>) -> (r: Vec<u8>)
    ensures
        r@ == src@,
{
    let mut out: Vec<u8> = Vec::new();
    push_bytes(&mut out, src);
    out
}

/// Returns the bytes of `src` from `start` (inclusive) to `end` (exclusive).
pub fn sub_bytes(src: &Vec<u8>, start: usize, end: usize) -> (r: Vec<u8>)
    requires
        start <= end <= src@.len(),
    ensures
        r@ == src@.subrange(start as int, end as int),
{
    let mut out: Vec<u8> = Vec::new();
    let mut i: usize = start;
    while i < end
        invariant
            start <= i <= end <= src@.len(),
            out@ == src@.subrange(start as int, i as int),
        decreases end - i,
    {
        out.push(src[i]);
        assert(out@ =~= src@.subrange(start as int, i + 1));
        i = i + 1;
    }
    out
}

/// The contents of a list of byte vectors, as a sequence of sequences.
pub open spec fn bytes_view(s: Seq<Vec<u8>>) -> Seq<Seq<u8>> {
    s.map_values(|x: Vec<u8>| x@)
}

/// Compares two byte vectors for equality of contents.
pub fn bytes_eq(a: &Vec<u8>, b: &Vec<u8>) -> (r: bool)
    ensures
        r == (a@ == b@),
{
    if a.len() != b.len() {
        assert(a@ != b@);
        return false;
    }
    let mut i: usize = 0;
    while i < a.len()
        invariant
            i <= a@.len(),
            a@.len() == b@.len(),
            forall|j: int| 0 <= j < i ==> a@[j] == b@[j],
        decreases a@.len() - i,
    {
        if a[i] != b[i] {
            return false;
        }
        i = i + 1;
    }
    assert(a@ =~= b@);
    true
}

// ---------------------------------------------------------------------------
// Little-endian integer fields
// ---------------------------------------------------------------------------

pub open spec fn u32_le_bytes(w: u32) -> Seq<u8> {
    seq![
        (w & 0xff) as u8,
        ((w >> 8) & 0xff) as u8,
        ((w >> 16) & 0xff) as u8,
        ((w >> 24) & 0xff) as u8,
    ]
}

pub open spec fn u32_from_le(s: Seq<u8>) -> u32
    recommends
        s.len() == 4,
{
    (s[0] as u32) | ((s[1] as u32) << 8) | ((s[2] as u32) << 16) | ((s[3] as u32) << 24)
}

pub open spec fn u64_le_bytes(w: u64) -> Seq<u8> {
    seq![
        (w & 0xff) as u8,
        ((w >> 8) & 0xff) as u8,
        ((w >> 16) & 0xff) as u8,
        ((w >> 24) & 0xff) as u8,
        ((w >> 32) & 0xff) as u8,
        ((w >> 40) & 0xff) as u8,
        ((w >> 48) & 0xff) as u8,
        ((w >> 56) & 0xff) as u8,
    ]
}

pub open spec fn u64_from_le(s: Seq<u8>) -> u64
    recommends
        s.len() == 8,
{
    (s[0] as u64) | ((s[1] as u64) << 8) | ((s[2] as u64) << 16) | ((s[3] as u64) << 24)
        | ((s[4] as u64) << 32) | ((s[5] as u64) << 40) | ((s[6] as u64) << 48)
        | ((s[7] as u64) << 56)
}

pub proof fn lemma_u32_le_roundtrip(w: u32)
    ensures
        u32_from_le(u32_le_bytes(w)) == w,
{
    assert(((w & 0xff) as u8 as u32)
        | ((((w >> 8) & 0xff) as u8 as u32) << 8)
        | ((((w >> 16) & 0xff) as u8 as u32) << 16)
        | ((((w >> 24) & 0xff) as u8 as u32) << 24) == w) by (bit_vector);
}

pub proof fn lemma_u64_le_roundtrip(w: u64)
    ensures
        u64_from_le(u64_le_bytes(w)) == w,
{
    assert(((w & 0xff) as u8 as u64)
        | ((((w >> 8) & 0xff) as u8 as u64) << 8)
        | ((((w >> 16) & 0xff) as u8 as u64) << 16)
        | ((((w >> 24) & 0xff) as u8 as u64) << 24)
        | ((((w >> 32) & 0xff) as u8 as u64) << 32)
        | ((((w >> 40) & 0xff) as u8 as u64) << 40)
        | ((((w >> 48) & 0xff) as u8 as u64) << 48)
        | ((((w >> 56) & 0xff) as u8 as u64) << 56) == w) by (bit_vector);
}

/// Encodes `w` as four little-endian bytes.
pub fn u32_to_le(w: u32) -> (r: Vec<u8>)
    ensures
        r@ == u32_le_bytes(w),
{
    let mut out: Vec<u8> = Vec::new();
    out.push((w & 0xff) as u8);
    out.push(((w >> 8) & 0xff) as u8);
    out.push(((w >> 16) & 0xff) as u8);
    out.push(((w >> 24) & 0xff) as u8);
    assert(out@ =~= u32_le_bytes(w));
    out
}

/// Encodes `w` as eight little-endian bytes.
pub fn u64_to_le(w: u64) -> (r: Vec<u8>)
    ensures
        r@ == u64_le_bytes(w),
{
    let mut out: Vec<u8> = Vec::new();
    out.push((w & 0xff) as u8);
    out.push(((w >> 8) & 0xff) as u8);
    out.push(((w >> 16) & 0xff) as u8);
    out.push(((w >> 24) & 0xff) as u8);
    out.push(((w >> 32) & 0xff) as u8);
    out.push(((w >> 40) & 0xff) as u8);
    out.push(((w >> 48) & 0xff) as u8);
    out.push(((w >> 56) & 0xff) as u8);
    assert(out@ =~= u64_le_bytes(w));
    out
}

/// Reads the four little-endian bytes at `off`.
pub fn read_u32_le(b: &Vec<u8>, off: usize) -> (r: u32)
    requires
        off + 4 <= b@.len(),
    ensures
        r == u32_from_le(b@.subrange(off as int, off as int + 4)),
{
    let n = b.len();  // offsets below stay within n, so none overflows
    let r = (b[off] as u32) | ((b[off + 1] as u32) << 8) | ((b[off + 2] as u32) << 16)
        | ((b[off + 3] as u32) << 24);
    assert(b@.subrange(off as int, off as int + 4)[0] == b@[off as int]);
    assert(b@.subrange(off as int, off as int + 4)[1] == b@[off as int + 1]);
    assert(b@.subrange(off as int, off as int + 4)[2] == b@[off as int + 2]);
    assert(b@.subrange(off as int, off as int + 4)[3] == b@[off as int + 3]);
    r
}

/// Reads the eight little-endian bytes at `off`.
pub fn read_u64_le(b: &Vec<u8>, off: usize) -> (r: u64)
    requires
        off + 8 <= b@.len(),
    ensures
        r == u64_from_le(b@.subrange(off as int, off as int + 8)),
{
    let n = b.len();  // offsets below stay within n, so none overflows
    let r = (b[off] as u64) | ((b[off + 1] as u64) << 8) | ((b[off + 2] as u64) << 16)
        | ((b[off + 3] as u64) << 24) | ((b[off + 4] as u64) << 32)
        | ((b[off + 5] as u64) << 40) | ((b[off + 6] as u64) << 48)
        | ((b[off + 7] as u64) << 56);
    assert forall|j: int| 0 <= j < 8 implies #[trigger] b@.subrange(off as int, off as int + 8)[j]
        == b@[off + j] by {}
    r
}

// ---------------------------------------------------------------------------
// RoundMeta
// ---------------------------------------------------------------------------

/// Which reclamation spend path an enumerated round input uses.
#[derive(Debug, Clone, Copy, PartialEq, Eq, Structural)]
pub enum RoundMetaKind {
    /// The VTXO-tree root output, spent by taproot script path.
    Vtxo,
    /// The connector output, spent by taproot key path.
    Connector,
}

/// Tag attached by the enumerator to each input it produces: which round the
/// input reclaims, and by which spend path.
#[derive(Debug, Clone, PartialEq, Eq)]
pub struct RoundMeta {
    pub round_txid: Vec<u8>,
    pub kind: RoundMetaKind,
}

#[verifier::ext_equal]
pub ghost struct RoundMetaView {
    pub round_txid: Seq<u8>,
    pub kind: RoundMetaKind,
}

impl View for RoundMeta {
    type V = RoundMetaView;

    open spec fn view(&self) -> RoundMetaView {
        RoundMetaView { round_txid: self.round_txid@, kind: self.kind }
    }
}

impl RoundMetaView {
    pub open spec fn wf(&self) -> bool {
        self.round_txid.len() == 32
    }
}

pub open spec fn kind_byte(k: RoundMetaKind) -> u8 {
    match k {
        RoundMetaKind::Vtxo => 0,
        RoundMetaKind::Connector => 1,
    }
}

/// A `RoundMeta` is the 32 txid bytes followed by one spend-path byte.
pub open spec fn spec_encode_round_meta(m: RoundMetaView) -> Seq<u8> {
    m.round_txid + seq![kind_byte(m.kind)]
}

pub open spec fn spec_decode_round_meta(b: Seq<u8>) -> Option<RoundMetaView> {
    if b.len() == 33 && (b[32] == 0 || b[32] == 1) {
        Some(
            RoundMetaView {
                round_txid: b.subrange(0, 32),
                kind: if b[32] == 0 {
                    RoundMetaKind::Vtxo
                } else {
                    RoundMetaKind::Connector
                },
            },
        )
    } else {
        None
    }
}

pub fn encode_round_meta(m: &RoundMeta) -> (r: Vec<u8>)
    requires
        m@.wf(),
    ensures
        r@ == spec_encode_round_meta(m@),
{
    let mut out: Vec<u8> = Vec::new();
    push_bytes(&mut out, &m.round_txid);
    let kb: u8 = match m.kind {
        RoundMetaKind::Vtxo => 0,
        RoundMetaKind::Connector => 1,
    };
    out.push(kb);
    assert(out@ =~= spec_encode_round_meta(m@));
    out
}

pub fn decode_round_meta(b: &Vec<u8>) -> (r: Option<RoundMeta>)
    ensures
        match r {
            Some(m) => m@.wf() && spec_decode_round_meta(b@) == Some(m@),
            None => spec_decode_round_meta(b@) is None,
        },
{
    if b.len() != 33 {
        return None;
    }
    let kb = b[32];
    if kb != 0 && kb != 1 {
        return None;
    }
    let m = RoundMeta {
        round_txid: sub_bytes(b, 0, 32),
        kind: if kb == 0 {
            RoundMetaKind::Vtxo
        } else {
            RoundMetaKind::Connector
        },
    };
    assert(spec_decode_round_meta(b@) =~= Some(m@));
    Some(m)
}

/// Encoding a legal `RoundMeta` and decoding it returns the same value.
pub proof fn lemma_round_meta_roundtrip(m: RoundMetaView)
    requires
        m.wf(),
    ensures
        spec_decode_round_meta(spec_encode_round_meta(m)) == Some(m),
{
    let b = spec_encode_round_meta(m);
    assert(b.len() == 33);
    assert(b[32] == kind_byte(m.kind));
    assert(b.subrange(0, 32) =~= m.round_txid);
    assert(spec_decode_round_meta(b) =~= Some(m));
}

// ---------------------------------------------------------------------------
// ClaimInput
// ---------------------------------------------------------------------------

/// Everything the exit-claim signer needs to finish one unilateral-exit
/// input: the user's key that must sign, the committed exit leaf script, the
/// control block proving that leaf's inclusion in the taproot output, and the
/// witness weight that fee budgeting assumed for this input.
#[derive(Debug, Clone, PartialEq, Eq)]
pub struct ClaimInput {
    pub user_pubkey: Vec<u8>,
    pub exit_script: Vec<u8>,
    pub exit_control_block: Vec<u8>,
    pub satisfaction_weight: u64,
}

#[verifier::ext_equal]
pub ghost struct ClaimInputView {
    pub user_pubkey: Seq<u8>,
    pub exit_script: Seq<u8>,
    pub exit_control_block: Seq<u8>,
    pub satisfaction_weight: u64,
}

impl View for ClaimInput {
    type V = ClaimInputView;

    open spec fn view(&self) -> ClaimInputView {
        ClaimInputView {
            user_pubkey: self.user_pubkey@,
            exit_script: self.exit_script@,
            exit_control_block: self.exit_control_block@,
            satisfaction_weight: self.satisfaction_weight,
        }
    }
}

impl ClaimInputView {
    pub open spec fn wf(&self) -> bool {
        &&& self.user_pubkey.len() == 33
        &&& self.exit_script.len() < 0x1_0000_0000
        &&& self.exit_control_block.len() < 0x1_0000_0000
    }
}

/// A `ClaimInput` is the 33 compressed public-key bytes, the weight as eight
/// little-endian bytes, then the script and the control block, each preceded
/// by its length as four little-endian bytes.
pub open spec fn spec_encode_claim_input(c: ClaimInputView) -> Seq<u8> {
    c.user_pubkey + u64_le_bytes(c.satisfaction_weight) + u32_le_bytes(
        c.exit_script.len() as u32,
    ) + c.exit_script + u32_le_bytes(c.exit_control_block.len() as u32) + c.exit_control_block
}

pub open spec fn spec_decode_claim_input(b: Seq<u8>) -> Option<ClaimInputView> {
    if b.len() < 45 {
        None
    } else {
        let sl = u32_from_le(b.subrange(41, 45)) as int;
        if b.len() < 49 + sl {
            None
        } else {
            let cl = u32_from_le(b.subrange(45 + sl, 49 + sl)) as int;
            if b.len() != 49 + sl + cl {
                None
            } else {
                Some(
                    ClaimInputView {
                        user_pubkey: b.subrange(0, 33),
                        exit_script: b.subrange(45, 45 + sl),
                        exit_control_block: b.subrange(49 + sl, 49 + sl + cl),
                        satisfaction_weight: u64_from_le(b.subrange(33, 41)),
                    },
                )
            }
        }
    }
}

pub fn encode_claim_input(c: &ClaimInput) -> (r: Vec<u8>)
    requires
        c@.wf(),
    ensures
        r@ == spec_encode_claim_input(c@),
{
    let mut out: Vec<u8> = Vec::new();
    push_bytes(&mut out, &c.user_pubkey);
    let wb = u64_to_le(c.satisfaction_weight);
    push_bytes(&mut out, &wb);
    let sl = u32_to_le(c.exit_script.len() as u32);
    push_bytes(&mut out, &sl);
    push_bytes(&mut out, &c.exit_script);
    let cl = u32_to_le(c.exit_control_block.len() as u32);
    push_bytes(&mut out, &cl);
    push_bytes(&mut out, &c.exit_control_block);
    assert(out@ =~= spec_encode_claim_input(c@));
    out
}

pub fn decode_claim_input(b: &Vec<u8>) -> (r: Option<ClaimInput>)
    ensures
        match r {
            Some(c) => c@.wf() && spec_decode_claim_input(b@) == Some(c@),
            None => spec_decode_claim_input(b@) is None,
        },
{
    if b.len() < 45 {
        return None;
    }
    let sl = read_u32_le(b, 41);
    if (b.len() as u64) < 49u64 + (sl as u64) {
        return None;
    }
    let sl_us = sl as usize;
    let cl = read_u32_le(b, 45 + sl_us);
    if (b.len() as u64) != 49u64 + (sl as u64) + (cl as u64) {
        return None;
    }
    let cl_us = cl as usize;
    let c = ClaimInput {
        user_pubkey: sub_bytes(b, 0, 33),
        exit_script: sub_bytes(b, 45, 45 + sl_us),
        exit_control_block: sub_bytes(b, 49 + sl_us, 49 + sl_us + cl_us),
        satisfaction_weight: read_u64_le(b, 33),
    };
    assert(spec_decode_claim_input(b@) =~= Some(c@));
    Some(c)
}

/// Encoding a legal `ClaimInput` and decoding it returns the same value.
pub proof fn lemma_claim_input_roundtrip(c: ClaimInputView)
    requires
        c.wf(),
    ensures
        spec_decode_claim_input(spec_encode_claim_input(c)) == Some(c),
{
    let b = spec_encode_claim_input(c);
    let sl = c.exit_script.len() as int;
    let cl = c.exit_control_block.len() as int;
    assert(b.len() == 49 + sl + cl);
    assert(b.subrange(41, 45) =~= u32_le_bytes(c.exit_script.len() as u32));
    lemma_u32_le_roundtrip(c.exit_script.len() as u32);
    assert(u32_from_le(b.subrange(41, 45)) as int == sl);
    assert(b.subrange(45 + sl, 49 + sl) =~= u32_le_bytes(c.exit_control_block.len() as u32));
    lemma_u32_le_roundtrip(c.exit_control_block.len() as u32);
    assert(u32_from_le(b.subrange(45 + sl, 49 + sl)) as int == cl);
    assert(b.subrange(0, 33) =~= c.user_pubkey);
    assert(b.subrange(33, 41) =~= u64_le_bytes(c.satisfaction_weight));
    lemma_u64_le_roundtrip(c.satisfaction_weight);
    assert(b.subrange(45, 45 + sl) =~= c.exit_script);
    assert(b.subrange(49 + sl, 49 + sl + cl) =~= c.exit_control_block);
    assert(spec_decode_claim_input(b) =~= Some(c));
}

} // verus!

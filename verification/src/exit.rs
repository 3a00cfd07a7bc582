//! Client-side signing of a unilateral exit claim.
//!
//! When the user's exit package was assembled, the input was tagged with a
//! `ClaimInput` naming the exit leaf script, its control block, the user
//! key that must sign, and the witness weight that was budgeted.  The
//! signer here reads that tag back and completes the input with a taproot
//! script-path witness, with no other context needed.  An untagged input
//! is not this signer's concern and is left untouched — and that is not an
//! error; a tag that does not decode is corruption; a supplied key whose
//! public key differs from the claim's recorded user key is a caller
//! error.  Success is owed exactly when the tag is absent, or decodes with
//! a matching valid key, a computable sighash and the budgeted weight
//! (`spec_claim_ok`); on failure nothing is written.

use vstd::prelude::*;

use crate::codec::{bytes_eq, bytes_view, spec_decode_claim_input, ClaimInputView};
use crate::cosign::{leaf_witness_len, leaf_witness_ser_len, with_witness};
use crate::crypto::{
    pubkey_of, public_key_bytes, schnorr_sign, schnorr_verifies, script_sighash_of,
    script_sighash_ok, sk_ok, taproot_script_sighash, xonly_pubkey_of,
};
use crate::psbt::{claim_input_key, prop_get, PsbtInput, PsbtInputView};
use crate::CoreError;

verus! {

/// The leaf version byte of an ordinary tapscript leaf.
pub const TAPROOT_LEAF_TAPSCRIPT: u8 = 0xc0;

/// The claim tag of an input: `Ok(None)` when absent, `Err` when a tag is
/// present but does not decode.
pub open spec fn input_claim_tag(i: PsbtInputView) -> Result<Option<ClaimInputView>, ()> {
    match prop_get(i.proprietary, claim_input_key()) {
        None => Ok(None),
        Some(b) => match spec_decode_claim_input(b) {
            Some(c) => Ok(Some(c)),
            None => Err(()),
        },
    }
}

/// Serialized size of the three-item exit witness for claim `c`: a 64-byte
/// signature, the exit script and the control block, each length-prefixed,
/// under a one-byte item count.
pub open spec fn claim_witness_ser_len(c: ClaimInputView) -> nat {
    leaf_witness_ser_len(c.exit_script, c.exit_control_block)
}

/// A claim-tagged input was given the script-path witness its claim calls
/// for: a 64-byte signature that passes BIP340 verification for the user's
/// key over the exit leaf's script-spend sighash, then the exit script and
/// the control block; the witness serializes to the budgeted satisfaction
/// weight, and the user's key is the one the claim recorded.
pub open spec fn signed_claim_input(
    pre: PsbtInputView,
    post: PsbtInputView,
    sk: Seq<u8>,
    tx: Seq<u8>,
    values: Seq<u64>,
    spks: Seq<Seq<u8>>,
    idx: int,
) -> bool {
    input_claim_tag(pre) matches Ok(Some(c)) && {
        &&& c.user_pubkey == pubkey_of(sk)
        &&& claim_witness_ser_len(c) == c.satisfaction_weight
        &&& exists|sig: Seq<u8>|
            {
                &&& #[trigger] sig.len() == 64
                &&& schnorr_verifies(
                    xonly_pubkey_of(sk),
                    script_sighash_of(tx, values, spks, idx, c.exit_script, TAPROOT_LEAF_TAPSCRIPT),
                    sig,
                )
                &&& post == with_witness(pre, seq![sig, c.exit_script, c.exit_control_block])
            }
    }
}

/// Exactly when claim signing succeeds: no tag at all (a no-op), or a
/// decodable tag whose recorded key is the valid supplied key's, whose
/// sighash bitcoin can compute, and whose witness size agrees with the
/// budgeted weight.
pub open spec fn spec_claim_ok(
    pre: PsbtInputView,
    sk: Seq<u8>,
    tx: Seq<u8>,
    values: Seq<u64>,
    spks: Seq<Seq<u8>>,
    idx: int,
) -> bool {
    match input_claim_tag(pre) {
        Ok(None) => true,
        Ok(Some(c)) => {
            &&& sk_ok(sk)
            &&& c.user_pubkey == pubkey_of(sk)
            &&& claim_witness_ser_len(c) == c.satisfaction_weight
            &&& script_sighash_ok(tx, values, spks, idx, c.exit_script, TAPROOT_LEAF_TAPSCRIPT)
        },
        Err(_) => false,
    }
}

impl PsbtInput {
    /// Completes this input's unilateral-exit witness from its `ClaimInput`
    /// tag, signing the BIP341 script-path sighash of input `input_idx` of
    /// the transaction in `tx_bytes` (under all prevouts, default sighash
    /// type) with the user's key `vtxo_sk`.  An untagged input is left
    /// untouched and that is success.  Succeeds if and only if
    /// `spec_claim_ok` holds — in particular the supplied key must match
    /// the claim's recorded user key and the finished witness must
    /// serialize to the claim's satisfaction weight; otherwise nothing is
    /// written and the error says why.
    pub fn try_sign_claim_input(
        &mut self,
        tx_bytes: &Vec<u8>,
        prevout_values: &Vec<u64>,
        prevout_spks: &Vec<Vec<u8>>,
        input_idx: usize,
        vtxo_sk: &Vec<u8>,
    ) -> (r: Result<(), CoreError>)
        requires
            old(self)@.wf(),
            vtxo_sk@.len() == 32,
            prevout_values@.len() == prevout_spks@.len(),
        ensures
            final(self)@.wf(),
            r is Ok <==> spec_claim_ok(
                old(self)@,
                vtxo_sk@,
                tx_bytes@,
                prevout_values@,
                bytes_view(prevout_spks@),
                input_idx as int,
            ),
            match r {
                Ok(_) => match input_claim_tag(old(self)@) {
                    Ok(None) => final(self)@ == old(self)@,
                    Ok(Some(_)) => signed_claim_input(
                        old(self)@,
                        final(self)@,
                        vtxo_sk@,
                        tx_bytes@,
                        prevout_values@,
                        bytes_view(prevout_spks@),
                        input_idx as int,
                    ),
                    Err(_) => false,
                },
                Err(e) => {
                    &&& final(self)@ == old(self)@
                    &&& match e {
                        CoreError::CorruptMeta { input_index } => input_index == input_idx
                            && input_claim_tag(old(self)@) is Err,
                        CoreError::KeyMismatch => input_claim_tag(old(self)@) matches Ok(Some(c))
                            && c.user_pubkey != pubkey_of(vtxo_sk@),
                        CoreError::SighashFailed { input_index } => {
                            &&& input_index == input_idx
                            &&& input_claim_tag(old(self)@) matches Ok(Some(c))
                                && !script_sighash_ok(
                                tx_bytes@,
                                prevout_values@,
                                bytes_view(prevout_spks@),
                                input_idx as int,
                                c.exit_script,
                                TAPROOT_LEAF_TAPSCRIPT,
                            )
                        },
                        CoreError::WitnessWeightMismatch { input_index } => {
                            &&& input_index == input_idx
                            &&& input_claim_tag(old(self)@) matches Ok(Some(c))
                                && claim_witness_ser_len(c) != c.satisfaction_weight
                        },
                        CoreError::BadSigningKey => !sk_ok(vtxo_sk@),
                        _ => false,
                    }
                },
            },
    {
        let ghost pv = prevout_values@;
        let ghost ps = bytes_view(prevout_spks@);
        let claim = match self.get_claim_input() {
            Ok(None) => {
                return Ok(());
            },
            Ok(Some(c)) => c,
            Err(_) => {
                return Err(CoreError::CorruptMeta { input_index: input_idx });
            },
        };
        let ghost cv = claim@;
        proof {
            assert(input_claim_tag(self@) == Ok::<Option<ClaimInputView>, ()>(Some(cv)));
        }

        // The caller must hand us the key the claim was built for.
        let pk = match public_key_bytes(vtxo_sk) {
            Some(p) => p,
            None => {
                return Err(CoreError::BadSigningKey);
            },
        };
        if !bytes_eq(&pk, &claim.user_pubkey) {
            return Err(CoreError::KeyMismatch);
        }

        // The committed weight must be what the finished witness will
        // serialize to.
        let wlen = leaf_witness_len(&claim.exit_script, &claim.exit_control_block);
        if wlen != claim.satisfaction_weight {
            return Err(CoreError::WitnessWeightMismatch { input_index: input_idx });
        }

        let sighash = match taproot_script_sighash(
            tx_bytes,
            prevout_values,
            prevout_spks,
            input_idx,
            &claim.exit_script,
            TAPROOT_LEAF_TAPSCRIPT,
        ) {
            Some(h) => h,
            None => {
                return Err(CoreError::SighashFailed { input_index: input_idx });
            },
        };
        let sig = match schnorr_sign(vtxo_sk, &sighash) {
            Some(s) => s,
            None => {
                proof {
                    assert(false);
                }
                return Err(CoreError::BadSigningKey);
            },
        };
        let ghost sigv = sig@;

        let mut wit: Vec<Vec<u8>> = Vec::new();
        wit.push(sig);
        wit.push(claim.exit_script);
        wit.push(claim.exit_control_block);
        proof {
            assert(bytes_view(wit@) =~= seq![sigv, cv.exit_script, cv.exit_control_block]);
        }
        self.final_script_witness = Some(wit);
        proof {
            assert(self@ =~~= with_witness(
                old(self)@,
                seq![sigv, cv.exit_script, cv.exit_control_block],
            ));
            assert(signed_claim_input(
                old(self)@,
                self@,
                vtxo_sk@,
                tx_bytes@,
                pv,
                ps,
                input_idx as int,
            )) by {
                assert(sigv.len() == 64 && schnorr_verifies(
                    xonly_pubkey_of(vtxo_sk@),
                    script_sighash_of(
                        tx_bytes@,
                        pv,
                        ps,
                        input_idx as int,
                        cv.exit_script,
                        TAPROOT_LEAF_TAPSCRIPT,
                    ),
                    sigv,
                ) && self@ == with_witness(
                    old(self)@,
                    seq![sigv, cv.exit_script, cv.exit_control_block],
                ));
            }
            assert(spec_claim_ok(old(self)@, vtxo_sk@, tx_bytes@, pv, ps, input_idx as int));
            assert(self@.wf());
        }
        Ok(())
    }
}

} // verus!

//! Settlement core of an Ark-style Bitcoin layer-2 service.
//!
//! A server batches many users' off-chain balances (VTXOs) into periodic
//! on-chain anchoring transactions ("rounds"); a client can unilaterally exit
//! those balances back to the base chain.  This crate holds the verified
//! settlement logic: the proprietary PSBT metadata codec shared by server and
//! client, the enumerator of reclaimable round outputs, the round cosigner
//! that fills taproot witnesses, and the client-side exit-claim signer.
//! Process plumbing (RPC, disk, the round scheduler loop) lives outside.

use vstd::prelude::*;
use vstd::string::StringExecFns;

pub mod bark;
pub mod codec;
pub mod cosign;
pub mod crypto;
pub mod enumerate;
pub mod exit;
pub mod psbt;
pub mod wallet;

verus! {

/// Failure taxonomy of the settlement core.
///
/// `Corrupt*` variants mean an earlier stage violated an invariant (a present
/// but undecodable tag, a tagged input missing its tap script); they carry the
/// offending input index for diagnosis.  `KeyMismatch` is a caller-contract
/// violation.  `WitnessWeightMismatch` is the defensive consistency check of a
/// produced witness against the weight that fee estimation assumed.
#[derive(Debug, Clone, Copy, PartialEq, Eq, Structural)]
pub enum CoreError {
    CorruptMeta { input_index: usize },
    MissingTapScript { input_index: usize },
    MissingWitnessUtxo { input_index: usize },
    SighashFailed { input_index: usize },
    BadSigningKey,
    KeyMismatch,
    WitnessWeightMismatch { input_index: usize },
}

/// Serialized size of the witness that spends an expired VTXO-tree node:
/// a 64-byte Schnorr signature, the 34-byte expiry leaf script and a 33-byte
/// control block, each length-prefixed, under a one-byte item count.
pub const NODE_SPEND_WEIGHT: u64 = 135;

/// Serialized size of the witness that spends a connector output by key path:
/// a single length-prefixed 64-byte Schnorr signature.
pub const CONNECTOR_INPUT_WEIGHT: u64 = 66;

/// The banner the service daemon prints when asked for its version.
pub fn version_banner() -> (r: String)
    ensures
        r@ == "bark-aspd 0.1.0"@,
{
    String::from_str("bark-aspd 0.1.0")
}

} // verus!

//! Trusted boundary to the `bitcoin` and `secp256k1` crates.
//!
//! The settlement logic works on plain byte vectors; everything that only
//! the outside cryptographic code can compute — BIP341 sighashes, Schnorr
//! signatures, public-key and taproot-tweak derivation — goes through the
//! wrappers here.  Each wrapper's contract states what the outside source
//! shows; results that are functions of the arguments alone are given
//! uninterpreted names so callers' contracts can speak of them exactly,
//! and every failure mode here is deterministic in the arguments, so each
//! wrapper also says exactly when it succeeds, through a named condition.
//! Schnorr signing draws fresh auxiliary randomness per call, so two calls
//! may return different bytes; what holds of every outcome — 64 bytes that
//! pass BIP340 verification for the signing key over the digest — is
//! stated through an uninterpreted verification predicate.  Each wrapper
//! constructs its own secp256k1 context with Secp256k1::new.

use vstd::prelude::*;

use bitcoin::key::TapTweak;
use bitcoin::secp256k1::{Keypair, Message, Secp256k1};
use bitcoin::sighash::{Prevouts, SighashCache, TapSighashType};
use bitcoin::taproot::{LeafVersion, TapLeafHash};
use bitcoin::{Amount, ScriptBuf, Transaction, TxOut};

verus! {

/// Whether secp256k1 accepts `sk` as a secret key (32 bytes, nonzero,
/// below the curve order): `Keypair::from_seckey_slice` succeeds on
/// exactly these inputs.
pub uninterp spec fn sk_ok(sk: Seq<u8>) -> bool;

/// The compressed public key (33 bytes) of the secret key `sk`.
pub uninterp spec fn pubkey_of(sk: Seq<u8>) -> Seq<u8>;

/// The x-only public key (32 bytes) of the secret key `sk`.
pub uninterp spec fn xonly_pubkey_of(sk: Seq<u8>) -> Seq<u8>;

/// The secret key of `sk`'s keypair after the taproot key-spend tweak with
/// no script tree.
pub uninterp spec fn keyspend_sk_of(sk: Seq<u8>) -> Seq<u8>;

/// Whether `sig` passes BIP340 Schnorr verification for the x-only public
/// key `pk` over the 32-byte digest `msg`.  Every signature that
/// `sign_schnorr` produces does, whatever auxiliary randomness it drew.
pub uninterp spec fn schnorr_verifies(pk: Seq<u8>, msg: Seq<u8>, sig: Seq<u8>) -> bool;

/// The BIP341 script-spend sighash of input `idx` of the transaction
/// serialized in `tx`, under all prevouts `(values, spks)` and the leaf
/// `(script, leaf_ver)`, with the default sighash type.
pub uninterp spec fn script_sighash_of(
    tx: Seq<u8>,
    values: Seq<u64>,
    spks: Seq<Seq<u8>>,
    idx: int,
    script: Seq<u8>,
    leaf_ver: u8,
) -> Seq<u8>;

/// Whether bitcoin can compute that script-spend sighash at all: the
/// transaction bytes decode, the leaf version byte is legal, and bitcoin's
/// sighash computation accepts the index and prevout list.  Deterministic
/// in the arguments.
pub uninterp spec fn script_sighash_ok(
    tx: Seq<u8>,
    values: Seq<u64>,
    spks: Seq<Seq<u8>>,
    idx: int,
    script: Seq<u8>,
    leaf_ver: u8,
) -> bool;

/// The BIP341 key-spend sighash of input `idx` of the transaction
/// serialized in `tx`, under all prevouts `(values, spks)`, with the
/// default sighash type.
pub uninterp spec fn key_sighash_of(tx: Seq<u8>, values: Seq<u64>, spks: Seq<Seq<u8>>, idx: int) -> Seq<
    u8,
>;

/// Whether bitcoin can compute that key-spend sighash at all: the
/// transaction bytes decode and bitcoin's sighash computation accepts the
/// index and prevout list.  Deterministic in the arguments.
pub uninterp spec fn key_sighash_ok(tx: Seq<u8>, values: Seq<u64>, spks: Seq<Seq<u8>>, idx: int) -> bool;

/// Relies on secp256k1::Keypair::from_seckey_slice (succeeds exactly on a
/// valid secret key, never panics) and PublicKey::serialize (33 compressed
/// bytes, a function of the key alone).
#[verifier::external_body]
pub(crate) fn public_key_bytes(sk: &Vec<u8>) -> (r: Option<Vec<u8>>)
    requires
        sk@.len() == 32,
    ensures
        r is Some <==> sk_ok(sk@),
        r matches Some(p) ==> p@ == pubkey_of(sk@) && p@.len() == 33,
{
    let secp = Secp256k1::new();
    match Keypair::from_seckey_slice(&secp, sk) {
        Ok(kp) => Some(kp.public_key().serialize().to_vec()),
        Err(_) => None,
    }
}

/// Relies on bitcoin::key::TapTweak::tap_tweak for Keypair with no merkle
/// root, and Keypair::secret_bytes: the key-spend-tweaked secret key, a
/// function of the key alone, itself a valid secret key since it comes out
/// of a live keypair.
#[verifier::external_body]
pub(crate) fn keyspend_secret(sk: &Vec<u8>) -> (r: Option<Vec<u8>>)
    requires
        sk@.len() == 32,
    ensures
        r is Some <==> sk_ok(sk@),
        r matches Some(k) ==> k@ == keyspend_sk_of(sk@) && k@.len() == 32 && sk_ok(k@),
{
    let secp = Secp256k1::new();
    let kp = match Keypair::from_seckey_slice(&secp, sk) {
        Ok(k) => k,
        Err(_) => return None,
    };
    Some(kp.tap_tweak(&secp, None).to_inner().secret_bytes().to_vec())
}

/// Relies on secp256k1::Secp256k1::sign_schnorr over a 32-byte digest: a
/// 64-byte BIP340 signature that verifies for the signing key's x-only
/// public key over that digest.  Fresh auxiliary randomness is drawn on
/// every call, so two calls on the same input may return different bytes;
/// nothing beyond length and validity is assumed.
#[verifier::external_body]
pub(crate) fn schnorr_sign(sk: &Vec<u8>, msg: &Vec<u8>) -> (r: Option<
    Vec<u8>,
>)
    requires
        sk@.len() == 32,
        msg@.len() == 32,
    ensures
        r is Some <==> sk_ok(sk@),
        r matches Some(s) ==> s@.len() == 64 && schnorr_verifies(xonly_pubkey_of(sk@), msg@, s@),
{
    let secp = Secp256k1::new();
    let kp = match Keypair::from_seckey_slice(&secp, sk) {
        Ok(k) => k,
        Err(_) => return None,
    };
    let mut d = [0u8; 32];
    d.copy_from_slice(&msg[..]);
    Some(secp.sign_schnorr(&Message::from_digest(d), &kp).serialize().to_vec())
}

/// Relies on bitcoin::consensus::encode::deserialize for Transaction,
/// SighashCache::taproot_script_spend_signature_hash with the All-prevouts
/// mode and the default sighash type, and TapLeafHash::from_script: the
/// 32-byte sighash, a function of the arguments alone.  Every failure path
/// in those calls returns an error value, and whether one fires is itself
/// a function of the arguments, named by `script_sighash_ok`.
#[verifier::external_body]
pub(crate) fn taproot_script_sighash(
    tx: &Vec<u8>,
    values: &Vec<u64>,
    spks: &Vec<Vec<u8>>,
    idx: usize,
    script: &Vec<u8>,
    leaf_ver: u8,
) -> (r: Option<Vec<u8>>)
    requires
        values@.len() == spks@.len(),
    ensures
        r is Some <==> script_sighash_ok(
            tx@,
            values@,
            crate::codec::bytes_view(spks@),
            idx as int,
            script@,
            leaf_ver,
        ),
        r matches Some(h) ==> h@ == script_sighash_of(
            tx@,
            values@,
            crate::codec::bytes_view(spks@),
            idx as int,
            script@,
            leaf_ver,
        ) && h@.len() == 32,
{
    let t: Transaction = bitcoin::consensus::encode::deserialize(tx).ok()?;
    let prev: Vec<TxOut> = values.iter().zip(spks.iter()).map(|(v, s)| TxOut { value: Amount::from_sat(*v), script_pubkey: ScriptBuf::from(s.clone()) }).collect();
    let lv = LeafVersion::from_consensus(leaf_ver).ok()?;
    let lh = TapLeafHash::from_script(ScriptBuf::from(script.clone()).as_script(), lv);
    let h = SighashCache::new(&t).taproot_script_spend_signature_hash(idx, &Prevouts::All(&prev), lh, TapSighashType::Default).ok()?;
    Some(<bitcoin::sighash::TapSighash as bitcoin::hashes::Hash>::to_byte_array(h).to_vec())
}

/// Relies on bitcoin::consensus::encode::deserialize for Transaction and
/// SighashCache::taproot_key_spend_signature_hash with the All-prevouts
/// mode and the default sighash type: the 32-byte sighash, a function of
/// the arguments alone.  Every failure path in those calls returns an
/// error value, and whether one fires is itself a function of the
/// arguments, named by `key_sighash_ok`.
#[verifier::external_body]
pub(crate) fn taproot_key_sighash(
    tx: &Vec<u8>,
    values: &Vec<u64>,
    spks: &Vec<Vec<u8>>,
    idx: usize,
) -> (r: Option<Vec<u8>>)
    requires
        values@.len() == spks@.len(),
    ensures
        r is Some <==> key_sighash_ok(tx@, values@, crate::codec::bytes_view(spks@), idx as int),
        r matches Some(h) ==> h@ == key_sighash_of(
            tx@,
            values@,
            crate::codec::bytes_view(spks@),
            idx as int,
        ) && h@.len() == 32,
{
    let t: Transaction = bitcoin::consensus::encode::deserialize(tx).ok()?;
    let prev: Vec<TxOut> = values.iter().zip(spks.iter()).map(|(v, s)| TxOut { value: Amount::from_sat(*v), script_pubkey: ScriptBuf::from(s.clone()) }).collect();
    let h = SighashCache::new(&t).taproot_key_spend_signature_hash(idx, &Prevouts::All(&prev), TapSighashType::Default).ok()?;
    Some(<bitcoin::sighash::TapSighash as bitcoin::hashes::Hash>::to_byte_array(h).to_vec())
}

} // verus!

//! The cryptographic and encoding primitives the verifier builds on.
//!
//! Each item here makes one call into an outside crate; its contract states
//! what that crate's source shows of the call.

use vstd::prelude::*;

verus! {

/// The Keccak-256 digest of `data`: 32 bytes that depend on `data` alone.
pub uninterp spec fn keccak256(data: Seq<u8>) -> Seq<u8>;

/// The 64-byte uncompressed secp256k1 public key recovered from the message
/// digest `digest`, the recovery id `recovery_id` and the signature `rs`
/// (`r` then `s`), or `None` where recovery fails.
pub uninterp spec fn secp256k1_recovered(digest: Seq<u8>, recovery_id: u8, rs: Seq<u8>) -> Option<Seq<u8>>;

/// Relies on `solana_program::keccak::hash`: the Keccak-256 digest of `data`,
/// a function of the bytes alone.
#[verifier::external_body]
pub(crate) fn keccak(data: &[u8]) -> (r: [u8; 32])
    ensures
        r@ == keccak256(data@),
{
    anchor_lang::solana_program::keccak::hash(data).0
}

/// Relies on `solana_program::secp256k1_recover::secp256k1_recover`: recovers
/// the signer's 64-byte public key from a 32-byte digest, a recovery id and a
/// 64-byte signature; every failure of the primitive becomes `None`.
#[verifier::external_body]
pub(crate) fn recover_pubkey(digest: &[u8; 32], recovery_id: u8, rs: &[u8; 64]) -> (r: Option<[u8; 64]>)
    ensures
        match r {
            Some(k) => secp256k1_recovered(digest@, recovery_id, rs@) == Some(k@),
            None => secp256k1_recovered(digest@, recovery_id, rs@).is_none(),
        },
{
    anchor_lang::solana_program::secp256k1_recover::secp256k1_recover(digest, recovery_id, rs)
        .ok()
        .map(|k| k.0)
}

/// Relies on `wormhole_raw_vaas::utils::quorum`, which computes `(n * 2) / 3 + 1`.
pub assume_specification[ wormhole_raw_vaas::utils::quorum ](n: usize) -> (r: usize)
    requires
        n <= usize::MAX / 2,
    ensures
        r == n * 2 / 3 + 1,
;

/// Relies on `wormhole_raw_vaas::GuardianSetSig::parse`, which accepts exactly
/// 66 bytes, and on its accessors `guardian_index` (byte 0), `rs` (bytes 1 to
/// 64) and `recovery_id` (byte 65).
#[verifier::external_body]
pub(crate) fn parse_guardian_sig(bytes: &[u8]) -> (r: Option<(u8, [u8; 64], u8)>)
    ensures
        r.is_some() == (bytes@.len() == 66),
        r.is_some() ==> {
            &&& r.unwrap().0 == bytes@[0]
            &&& r.unwrap().1@ == bytes@.subrange(1, 65)
            &&& r.unwrap().2 == bytes@[65]
        },
{
    wormhole_raw_vaas::GuardianSetSig::parse(bytes)
        .ok()
        .map(|s| (s.guardian_index(), s.rs(), s.recovery_id()))
}

} // verus!

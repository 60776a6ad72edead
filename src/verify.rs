//! The quorum verifier: checks a batch of guardian signatures over a digest
//! against a guardian set.

use vstd::prelude::*;
use crate::digest::{build_digest, digest_result};
use crate::error::ExampleQueriesSolanaVerifyError;
use crate::guardian::{is_active_at, quorum_of, GuardianSet};
use crate::primitives::{keccak, keccak256, parse_guardian_sig, recover_pubkey, secp256k1_recovered};

verus! {

/// The 20-byte address of a guardian with public key `pubkey`: the last 20
/// bytes of the key's Keccak-256 digest.
pub open spec fn eth_address(pubkey: Seq<u8>) -> Seq<u8> {
    keccak256(pubkey).subrange(12, 32)
}

/// The outcome of checking signature `rs` with recovery id `recovery_id`
/// over `digest` against the guardian address `guardian_key`.
pub open spec fn signature_check(
    digest: Seq<u8>,
    recovery_id: u8,
    rs: Seq<u8>,
    guardian_key: Seq<u8>,
) -> Result<(), ExampleQueriesSolanaVerifyError> {
    match secp256k1_recovered(digest, recovery_id, rs) {
        None => Err(ExampleQueriesSolanaVerifyError::InvalidSignature),
        Some(pubkey) => if eth_address(pubkey) == guardian_key {
            Ok(())
        } else {
            Err(ExampleQueriesSolanaVerifyError::InvalidGuardianKeyRecovery)
        },
    }
}

/// A signature entry is well formed when it has 66 bytes (guardian index,
/// `r`, `s`, recovery id) and a recovery id of 0 or 1.
pub open spec fn entry_well_formed(entry: Seq<u8>) -> bool {
    entry.len() == 66 && (entry[65] == 0 || entry[65] == 1)
}

/// The guardian index that a well-formed entry claims.
pub open spec fn entry_index(entry: Seq<u8>) -> u8 {
    entry[0]
}

/// The error of entry `j` of `sigs`, given that every entry before it passed.
pub open spec fn entry_error(
    keys: Seq<[u8; 20]>,
    sigs: Seq<Vec<u8>>,
    digest: Seq<u8>,
    j: int,
) -> Option<ExampleQueriesSolanaVerifyError> {
    let entry = sigs[j]@;
    if !entry_well_formed(entry) {
        Some(ExampleQueriesSolanaVerifyError::InvalidSignature)
    } else if j > 0 && entry_index(entry) <= entry_index(sigs[j - 1]@) {
        Some(ExampleQueriesSolanaVerifyError::InvalidGuardianIndexNonIncreasing)
    } else if entry_index(entry) as int >= keys.len() {
        Some(ExampleQueriesSolanaVerifyError::InvalidGuardianIndexOutOfRange)
    } else {
        match signature_check(
            digest,
            entry[65],
            entry.subrange(1, 65),
            keys[entry_index(entry) as int]@,
        ) {
            Ok(_) => None,
            Err(e) => Some(e),
        }
    }
}

/// The first error among the first `n` entries of `sigs`, if any.
pub open spec fn first_error(
    keys: Seq<[u8; 20]>,
    sigs: Seq<Vec<u8>>,
    digest: Seq<u8>,
    n: nat,
) -> Option<ExampleQueriesSolanaVerifyError>
    decreases n,
{
    if n == 0 {
        None
    } else {
        match first_error(keys, sigs, digest, (n - 1) as nat) {
            Some(e) => Some(e),
            None => entry_error(keys, sigs, digest, n - 1),
        }
    }
}

/// The outcome of verifying the batch `sigs` over `digest` against `set` at
/// `timestamp`: the number of signatures on success, else the first failing
/// check in the order liveness, quorum count, then each entry in turn.
pub open spec fn verify_result(
    set: GuardianSet,
    sigs: Seq<Vec<u8>>,
    digest: Seq<u8>,
    timestamp: u32,
) -> Result<usize, ExampleQueriesSolanaVerifyError> {
    if !is_active_at(set.expiration_time, timestamp) {
        Err(ExampleQueriesSolanaVerifyError::GuardianSetExpired)
    } else if sigs.len() < quorum_of(set.keys@.len()) {
        Err(ExampleQueriesSolanaVerifyError::NoQuorum)
    } else {
        match first_error(set.keys@, sigs, digest, sigs.len()) {
            Some(e) => Err(e),
            None => Ok(sigs.len() as usize),
        }
    }
}

proof fn lemma_first_error_sticks(
    keys: Seq<[u8; 20]>,
    sigs: Seq<Vec<u8>>,
    digest: Seq<u8>,
    i: nat,
    n: nat,
)
    requires
        i <= n,
        first_error(keys, sigs, digest, i).is_some(),
    ensures
        first_error(keys, sigs, digest, n) == first_error(keys, sigs, digest, i),
    decreases n - i,
{
    if i < n {
        lemma_first_error_sticks(keys, sigs, digest, i, (n - 1) as nat);
    }
}

/// Checks that the signature `rs` with recovery id `recovery_id` over `digest`
/// comes from the guardian whose address is `guardian_pubkey`.
pub fn verify_guardian_signature(
    rs: &[u8; 64],
    recovery_id: u8,
    guardian_pubkey: &[u8; 20],
    digest: &[u8; 32],
) -> (r: Result<(), ExampleQueriesSolanaVerifyError>)
    ensures
        r == signature_check(digest@, recovery_id, rs@, guardian_pubkey@),
{
    let pubkey = match recover_pubkey(digest, recovery_id, rs) {
        Some(k) => k,
        None => return Err(ExampleQueriesSolanaVerifyError::InvalidSignature),
    };
    let hashed = keccak(pubkey.as_slice());
    let ghost address = eth_address(pubkey@);
    let mut i: usize = 0;
    while i < 20
        invariant
            0 <= i <= 20,
            hashed@.len() == 32,
            guardian_pubkey@.len() == 20,
            address == hashed@.subrange(12, 32),
            address == eth_address(pubkey@),
            secp256k1_recovered(digest@, recovery_id, rs@) == Some(pubkey@),
            forall|k: int| 0 <= k < i ==> address[k] == guardian_pubkey@[k],
        decreases 20 - i,
    {
        if hashed[12 + i] != guardian_pubkey[i] {
            assert(address[i as int] != guardian_pubkey@[i as int]);
            assert(address != guardian_pubkey@);
            return Err(ExampleQueriesSolanaVerifyError::InvalidGuardianKeyRecovery);
        }
        i = i + 1;
    }
    assert(address =~= guardian_pubkey@);
    Ok(())
}

/// Verifies the batch of signature entries `guardian_signatures` over `digest`
/// against `guardian_set` at `timestamp`. Every entry must pass: one bad entry
/// rejects the whole batch.
pub fn verify_signatures(
    guardian_set: &GuardianSet,
    guardian_signatures: &Vec<Vec<u8>>,
    digest: &[u8; 32],
    timestamp: u32,
) -> (r: Result<usize, ExampleQueriesSolanaVerifyError>)
    requires
        guardian_set.keys@.len() <= usize::MAX / 2,
    ensures
        r == verify_result(*guardian_set, guardian_signatures@, digest@, timestamp),
{
    if !guardian_set.is_active(&timestamp) {
        return Err(ExampleQueriesSolanaVerifyError::GuardianSetExpired);
    }
    let guardian_keys = &guardian_set.keys;
    let quorum = guardian_set.quorum();
    if guardian_signatures.len() < quorum {
        return Err(ExampleQueriesSolanaVerifyError::NoQuorum);
    }
    let ghost keys = guardian_keys@;
    let ghost sigs = guardian_signatures@;
    let mut last_guardian_index: Option<u8> = None;
    let mut i: usize = 0;
    while i < guardian_signatures.len()
        invariant
            0 <= i <= sigs.len(),
            sigs == guardian_signatures@,
            keys == guardian_keys@,
            keys == guardian_set.keys@,
            is_active_at(guardian_set.expiration_time, timestamp),
            sigs.len() >= quorum_of(keys.len()),
            first_error(keys, sigs, digest@, i as nat).is_none(),
            i == 0 ==> last_guardian_index.is_none(),
            i > 0 ==> last_guardian_index == Some(entry_index(sigs[i - 1]@)),
        decreases sigs.len() - i,
    {
        let ghost err = entry_error(keys, sigs, digest@, i as int);
        assert(first_error(keys, sigs, digest@, (i + 1) as nat) == err);
        let entry = guardian_signatures[i].as_slice();
        assert(entry@ == sigs[i as int]@);
        let sig = match parse_guardian_sig(entry) {
            Some(s) => s,
            None => {
                proof {
                    lemma_first_error_sticks(keys, sigs, digest@, (i + 1) as nat, sigs.len());
                }
                return Err(ExampleQueriesSolanaVerifyError::InvalidSignature);
            },
        };
        let (index, rs, recovery_id) = sig;
        if recovery_id != 0 && recovery_id != 1 {
            proof {
                lemma_first_error_sticks(keys, sigs, digest@, (i + 1) as nat, sigs.len());
            }
            return Err(ExampleQueriesSolanaVerifyError::InvalidSignature);
        }
        // Strictly increasing indices rule out both duplicates and reordering.
        if let Some(last_index) = last_guardian_index {
            if index <= last_index {
                proof {
                    lemma_first_error_sticks(keys, sigs, digest@, (i + 1) as nat, sigs.len());
                }
                return Err(ExampleQueriesSolanaVerifyError::InvalidGuardianIndexNonIncreasing);
            }
        }
        if index as usize >= guardian_keys.len() {
            proof {
                lemma_first_error_sticks(keys, sigs, digest@, (i + 1) as nat, sigs.len());
            }
            return Err(ExampleQueriesSolanaVerifyError::InvalidGuardianIndexOutOfRange);
        }
        let checked = verify_guardian_signature(
            &rs,
            recovery_id,
            &guardian_keys[index as usize],
            digest,
        );
        if let Err(e) = checked {
            proof {
                lemma_first_error_sticks(keys, sigs, digest@, (i + 1) as nat, sigs.len());
            }
            return Err(e);
        }
        last_guardian_index = Some(index);
        i = i + 1;
    }
    Ok(guardian_signatures.len())
}

/// Checks the query message `bytes` end to end: the guardian set must be
/// active, the message under `message_prefix` well formed, and the batch a
/// quorum of valid guardian signatures over its digest.
pub open spec fn query_result(
    set: GuardianSet,
    sigs: Seq<Vec<u8>>,
    message_prefix: Seq<u8>,
    bytes: Seq<u8>,
    timestamp: u32,
) -> Result<usize, ExampleQueriesSolanaVerifyError> {
    if !is_active_at(set.expiration_time, timestamp) {
        Err(ExampleQueriesSolanaVerifyError::GuardianSetExpired)
    } else {
        match digest_result(message_prefix, bytes) {
            Err(e) => Err(e),
            Ok((_, digest)) => verify_result(set, sigs, digest, timestamp),
        }
    }
}

/// What one verification of a query reads: the guardian set named by the
/// query and the staged batch of signature entries.
pub struct VerifyQuery {
    pub guardian_set: GuardianSet,
    pub guardian_signatures: Vec<Vec<u8>>,
}

impl VerifyQuery {
    /// Verifies that a quorum of the guardian set signed the query message
    /// `bytes` (under `message_prefix`) at `timestamp`, returning the number of
    /// signatures checked.
    pub fn constraints(&self, message_prefix: &[u8], bytes: &[u8], timestamp: u32) -> (r: Result<
        usize,
        ExampleQueriesSolanaVerifyError,
    >)
        requires
            self.guardian_set.keys@.len() <= usize::MAX / 2,
        ensures
            r == query_result(
                self.guardian_set,
                self.guardian_signatures@,
                message_prefix@,
                bytes@,
                timestamp,
            ),
    {
        if !self.guardian_set.is_active(&timestamp) {
            return Err(ExampleQueriesSolanaVerifyError::GuardianSetExpired);
        }
        match build_digest(message_prefix, bytes) {
            Err(e) => Err(e),
            Ok((_, digest)) => verify_signatures(
                &self.guardian_set,
                &self.guardian_signatures,
                &digest,
                timestamp,
            ),
        }
    }
}

/// The outcome of accepting a query whose signatures an outside facility has
/// already verified: it recorded `num_verified` valid signatures over
/// `recorded_digest`. The set must be active, the recomputed digest must equal
/// the recorded one, and the recorded count must reach the quorum.
pub open spec fn recorded_result(
    set: GuardianSet,
    num_verified: usize,
    recorded_digest: Seq<u8>,
    message_prefix: Seq<u8>,
    bytes: Seq<u8>,
    timestamp: u32,
) -> Result<usize, ExampleQueriesSolanaVerifyError> {
    if !is_active_at(set.expiration_time, timestamp) {
        Err(ExampleQueriesSolanaVerifyError::GuardianSetExpired)
    } else {
        match digest_result(message_prefix, bytes) {
            Err(e) => Err(e),
            Ok((_, digest)) => if digest != recorded_digest {
                Err(ExampleQueriesSolanaVerifyError::InvalidMessageHash)
            } else if num_verified < quorum_of(set.keys@.len()) {
                Err(ExampleQueriesSolanaVerifyError::NoQuorum)
            } else {
                Ok(num_verified)
            },
        }
    }
}

fn digests_equal(a: &[u8; 32], b: &[u8; 32]) -> (r: bool)
    ensures
        r == (a@ == b@),
{
    let mut i: usize = 0;
    while i < 32
        invariant
            0 <= i <= 32,
            a@.len() == 32,
            b@.len() == 32,
            forall|k: int| 0 <= k < i ==> a@[k] == b@[k],
        decreases 32 - i,
    {
        if a[i] != b[i] {
            return false;
        }
        i = i + 1;
    }
    assert(a@ =~= b@);
    true
}

/// Accepts the query message `bytes` on the word of an outside signature
/// verification facility, which recorded `num_verified` signatures of
/// `guardian_set` over `recorded_digest`.
pub fn verify_recorded_signatures(
    guardian_set: &GuardianSet,
    num_verified: usize,
    recorded_digest: &[u8; 32],
    message_prefix: &[u8],
    bytes: &[u8],
    timestamp: u32,
) -> (r: Result<usize, ExampleQueriesSolanaVerifyError>)
    requires
        guardian_set.keys@.len() <= usize::MAX / 2,
    ensures
        r == recorded_result(
            *guardian_set,
            num_verified,
            recorded_digest@,
            message_prefix@,
            bytes@,
            timestamp,
        ),
{
    if !guardian_set.is_active(&timestamp) {
        return Err(ExampleQueriesSolanaVerifyError::GuardianSetExpired);
    }
    let digest = match build_digest(message_prefix, bytes) {
        Err(e) => return Err(e),
        Ok((_, digest)) => digest,
    };
    if !digests_equal(&digest, recorded_digest) {
        return Err(ExampleQueriesSolanaVerifyError::InvalidMessageHash);
    }
    if num_verified < guardian_set.quorum() {
        return Err(ExampleQueriesSolanaVerifyError::NoQuorum);
    }
    Ok(num_verified)
}

proof fn lemma_first_error_none(
    keys: Seq<[u8; 20]>,
    sigs: Seq<Vec<u8>>,
    digest: Seq<u8>,
    n: nat,
)
    ensures
        first_error(keys, sigs, digest, n).is_none() <==> forall|j: int|
            0 <= j < n ==> #[trigger] entry_error(keys, sigs, digest, j).is_none(),
    decreases n,
{
    if n > 0 {
        lemma_first_error_none(keys, sigs, digest, (n - 1) as nat);
    }
}

proof fn lemma_first_error_at(
    keys: Seq<[u8; 20]>,
    sigs: Seq<Vec<u8>>,
    digest: Seq<u8>,
    j: int,
    n: nat,
)
    requires
        0 <= j < n,
        forall|k: int| 0 <= k < j ==> #[trigger] entry_error(keys, sigs, digest, k).is_none(),
        entry_error(keys, sigs, digest, j).is_some(),
    ensures
        first_error(keys, sigs, digest, n) == entry_error(keys, sigs, digest, j),
{
    lemma_first_error_none(keys, sigs, digest, j as nat);
    assert(first_error(keys, sigs, digest, (j + 1) as nat) == entry_error(keys, sigs, digest, j));
    lemma_first_error_sticks(keys, sigs, digest, (j + 1) as nat, n);
}

proof fn lemma_first_error_congruent(
    keys: Seq<[u8; 20]>,
    sigs1: Seq<Vec<u8>>,
    sigs2: Seq<Vec<u8>>,
    digest: Seq<u8>,
    n: nat,
)
    requires
        n <= sigs1.len(),
        sigs1.len() == sigs2.len(),
        forall|j: int| 0 <= j < sigs1.len() ==> #[trigger] sigs1[j]@ == sigs2[j]@,
    ensures
        first_error(keys, sigs1, digest, n) == first_error(keys, sigs2, digest, n),
    decreases n,
{
    if n > 0 {
        lemma_first_error_congruent(keys, sigs1, sigs2, digest, (n - 1) as nat);
        let j = n - 1;
        assert(sigs1[j]@ == sigs2[j]@);
        if j > 0 {
            assert(sigs1[j - 1]@ == sigs2[j - 1]@);
        }
    }
}

/// A guardian set past its expiration time rejects every batch with
/// `GuardianSetExpired`, however many valid signatures it holds.
pub proof fn lemma_expired_set_rejects(
    set: GuardianSet,
    sigs: Seq<Vec<u8>>,
    digest: Seq<u8>,
    timestamp: u32,
)
    requires
        set.expiration_time != 0,
        timestamp > set.expiration_time,
    ensures
        verify_result(set, sigs, digest, timestamp) == Err::<usize, ExampleQueriesSolanaVerifyError>(
            ExampleQueriesSolanaVerifyError::GuardianSetExpired,
        ),
{
}

/// On an active set, a batch with fewer entries than the quorum is rejected
/// with `NoQuorum`, whatever the entries hold.
pub proof fn lemma_below_quorum_rejects(
    set: GuardianSet,
    sigs: Seq<Vec<u8>>,
    digest: Seq<u8>,
    timestamp: u32,
)
    requires
        is_active_at(set.expiration_time, timestamp),
        sigs.len() < quorum_of(set.keys@.len()),
    ensures
        verify_result(set, sigs, digest, timestamp) == Err::<usize, ExampleQueriesSolanaVerifyError>(
            ExampleQueriesSolanaVerifyError::NoQuorum,
        ),
{
}

/// Verification succeeds exactly when the set is active, the batch reaches
/// the quorum, and every entry passes on its own; success then counts every
/// entry. There is no partial credit: a single failing entry fails the batch.
pub proof fn lemma_success_iff_every_entry_passes(
    set: GuardianSet,
    sigs: Seq<Vec<u8>>,
    digest: Seq<u8>,
    timestamp: u32,
)
    requires
        sigs.len() <= usize::MAX,
    ensures
        verify_result(set, sigs, digest, timestamp) is Ok <==> {
            &&& is_active_at(set.expiration_time, timestamp)
            &&& sigs.len() >= quorum_of(set.keys@.len())
            &&& forall|j: int|
                0 <= j < sigs.len() ==> #[trigger] entry_error(set.keys@, sigs, digest, j).is_none()
        },
        verify_result(set, sigs, digest, timestamp) is Ok ==> verify_result(
            set,
            sigs,
            digest,
            timestamp,
        ) == Ok::<usize, ExampleQueriesSolanaVerifyError>(sigs.len() as usize),
{
    lemma_first_error_none(set.keys@, sigs, digest, sigs.len());
}

/// On an active set with a quorum-sized batch whose earlier entries all pass,
/// the first entry whose guardian index does not exceed the one before it
/// fails the batch with `InvalidGuardianIndexNonIncreasing`: a repeated or
/// out-of-order guardian is never counted.
pub proof fn lemma_non_increasing_index_rejects(
    set: GuardianSet,
    sigs: Seq<Vec<u8>>,
    digest: Seq<u8>,
    timestamp: u32,
    j: int,
)
    requires
        is_active_at(set.expiration_time, timestamp),
        sigs.len() >= quorum_of(set.keys@.len()),
        0 < j < sigs.len(),
        forall|k: int| 0 <= k < j ==> #[trigger] entry_error(set.keys@, sigs, digest, k).is_none(),
        entry_well_formed(sigs[j]@),
        entry_index(sigs[j]@) <= entry_index(sigs[j - 1]@),
    ensures
        verify_result(set, sigs, digest, timestamp) == Err::<usize, ExampleQueriesSolanaVerifyError>(
            ExampleQueriesSolanaVerifyError::InvalidGuardianIndexNonIncreasing,
        ),
{
    lemma_first_error_at(set.keys@, sigs, digest, j, sigs.len());
}

/// On an active set with a quorum-sized batch whose earlier entries all pass,
/// a well-formed, correctly ordered entry whose guardian index has no key in
/// the set fails the batch with `InvalidGuardianIndexOutOfRange`, whatever
/// its signature.
pub proof fn lemma_out_of_range_index_rejects(
    set: GuardianSet,
    sigs: Seq<Vec<u8>>,
    digest: Seq<u8>,
    timestamp: u32,
    j: int,
)
    requires
        is_active_at(set.expiration_time, timestamp),
        sigs.len() >= quorum_of(set.keys@.len()),
        0 <= j < sigs.len(),
        forall|k: int| 0 <= k < j ==> #[trigger] entry_error(set.keys@, sigs, digest, k).is_none(),
        entry_well_formed(sigs[j]@),
        j > 0 ==> entry_index(sigs[j]@) > entry_index(sigs[j - 1]@),
        entry_index(sigs[j]@) >= set.keys@.len(),
    ensures
        verify_result(set, sigs, digest, timestamp) == Err::<usize, ExampleQueriesSolanaVerifyError>(
            ExampleQueriesSolanaVerifyError::InvalidGuardianIndexOutOfRange,
        ),
{
    lemma_first_error_at(set.keys@, sigs, digest, j, sigs.len());
}

/// On an active set with a quorum-sized batch whose earlier entries all pass,
/// an entry whose signature recovers to an address other than its guardian's
/// fails the whole batch with `InvalidGuardianKeyRecovery`.
pub proof fn lemma_wrong_signer_rejects(
    set: GuardianSet,
    sigs: Seq<Vec<u8>>,
    digest: Seq<u8>,
    timestamp: u32,
    j: int,
)
    requires
        is_active_at(set.expiration_time, timestamp),
        sigs.len() >= quorum_of(set.keys@.len()),
        0 <= j < sigs.len(),
        forall|k: int| 0 <= k < j ==> #[trigger] entry_error(set.keys@, sigs, digest, k).is_none(),
        entry_well_formed(sigs[j]@),
        j > 0 ==> entry_index(sigs[j]@) > entry_index(sigs[j - 1]@),
        entry_index(sigs[j]@) < set.keys@.len(),
        signature_check(
            digest,
            sigs[j]@[65],
            sigs[j]@.subrange(1, 65),
            set.keys@[entry_index(sigs[j]@) as int]@,
        ) == Err::<(), ExampleQueriesSolanaVerifyError>(
            ExampleQueriesSolanaVerifyError::InvalidGuardianKeyRecovery,
        ),
    ensures
        verify_result(set, sigs, digest, timestamp) == Err::<usize, ExampleQueriesSolanaVerifyError>(
            ExampleQueriesSolanaVerifyError::InvalidGuardianKeyRecovery,
        ),
{
    lemma_first_error_at(set.keys@, sigs, digest, j, sigs.len());
}

/// Verification reads its inputs and changes nothing: verifying the same set,
/// batch, digest and time again gives the same result.
pub proof fn lemma_verify_repeatable(
    set1: GuardianSet,
    set2: GuardianSet,
    sigs1: Seq<Vec<u8>>,
    sigs2: Seq<Vec<u8>>,
    digest: Seq<u8>,
    timestamp: u32,
)
    requires
        set1.index == set2.index,
        set1.keys@ == set2.keys@,
        set1.creation_time == set2.creation_time,
        set1.expiration_time == set2.expiration_time,
        sigs1.len() == sigs2.len(),
        forall|j: int| 0 <= j < sigs1.len() ==> #[trigger] sigs1[j]@ == sigs2[j]@,
    ensures
        verify_result(set1, sigs1, digest, timestamp) == verify_result(set2, sigs2, digest, timestamp),
{
    lemma_first_error_congruent(set1.keys@, sigs1, sigs2, digest, sigs1.len());
}

} // verus!

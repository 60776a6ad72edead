//! The message that guardians sign for a query response, and its digest.

use vstd::prelude::*;
use crate::error::ExampleQueriesSolanaVerifyError;
use crate::primitives::{keccak, keccak256};

verus! {

/// Length of a query message: a 35-byte prefix and a 32-byte payload hash.
pub const QUERY_MESSAGE_LEN: usize = 67;

/// The prefix that sets query-response messages apart from every other
/// message that guardians sign: `query_response_0000000000000000000|`.
pub const MESSAGE_PREFIX: [u8; 35] = [
    113, 117, 101, 114, 121, 95, 114, 101, 115, 112, 111, 110, 115, 101, 95,
    48, 48, 48, 48, 48, 48, 48, 48, 48, 48, 48, 48, 48, 48, 48, 48, 48, 48, 48,
    124,
];

/// The message signed for `payload`: the prefix, then the payload's hash.
pub open spec fn query_message(prefix: Seq<u8>, payload: Seq<u8>) -> Seq<u8> {
    prefix + keccak256(payload)
}

/// The message and digest built for `payload`, or `InvalidMessageHash` when
/// the message does not have the expected length.
pub open spec fn digest_result(prefix: Seq<u8>, payload: Seq<u8>) -> Result<
    (Seq<u8>, Seq<u8>),
    ExampleQueriesSolanaVerifyError,
> {
    let message = query_message(prefix, payload);
    if message.len() != QUERY_MESSAGE_LEN {
        Err(ExampleQueriesSolanaVerifyError::InvalidMessageHash)
    } else {
        Ok((message, keccak256(message)))
    }
}

/// Builds the message that guardians sign for `payload` under `prefix`, and
/// the digest that their signatures are recovered against.
pub fn build_digest(prefix: &[u8], payload: &[u8]) -> (r: Result<
    (Vec<u8>, [u8; 32]),
    ExampleQueriesSolanaVerifyError,
>)
    ensures
        match r {
            Ok((message, digest)) => digest_result(prefix@, payload@) == Ok::<
                (Seq<u8>, Seq<u8>),
                ExampleQueriesSolanaVerifyError,
            >((message@, digest@)),
            Err(e) => digest_result(prefix@, payload@) == Err::<
                (Seq<u8>, Seq<u8>),
                ExampleQueriesSolanaVerifyError,
            >(e),
        },
{
    let payload_hash = keccak(payload);
    let mut message: Vec<u8> = Vec::new();
    let mut i: usize = 0;
    while i < prefix.len()
        invariant
            0 <= i <= prefix@.len(),
            message@ == prefix@.subrange(0, i as int),
        decreases prefix@.len() - i,
    {
        message.push(prefix[i]);
        i = i + 1;
    }
    let mut j: usize = 0;
    while j < 32
        invariant
            0 <= j <= 32,
            payload_hash@.len() == 32,
            message@ == prefix@ + payload_hash@.subrange(0, j as int),
        decreases 32 - j,
    {
        message.push(payload_hash[j]);
        j = j + 1;
    }
    assert(payload_hash@.subrange(0, 32) == payload_hash@);
    assert(message@ == query_message(prefix@, payload@));
    // Defense in depth: the length is checked, not assumed.
    if message.len() != QUERY_MESSAGE_LEN {
        return Err(ExampleQueriesSolanaVerifyError::InvalidMessageHash);
    }
    let digest = keccak(message.as_slice());
    Ok((message, digest))
}

/// Building the digest is a function of the prefix and the payload: equal
/// inputs give equal messages and digests.
pub proof fn lemma_digest_deterministic(prefix: Seq<u8>, p1: Seq<u8>, p2: Seq<u8>)
    requires
        p1 == p2,
    ensures
        digest_result(prefix, p1) == digest_result(prefix, p2),
{
}

} // verus!

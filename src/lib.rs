//! Quorum verification of guardian-signed query responses.
//!
//! A query response is trusted when a quorum of the guardians of an active
//! guardian set signed the digest of its message, each guardian at most once
//! and in strictly increasing order of guardian index.

pub mod digest;
pub mod error;
pub mod guardian;
pub mod primitives;
pub mod verify;

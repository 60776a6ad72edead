//! The guardian set: a versioned roster of guardian addresses with a
//! validity window.

use vstd::prelude::*;

verus! {

/// The least number of distinct guardian signatures that a set of
/// `num_guardians` guardians needs: more than two thirds of them.
pub open spec fn quorum_of(num_guardians: nat) -> nat {
    2 * num_guardians / 3 + 1
}

/// A set expires after its expiration time, unless that time is zero.
pub open spec fn is_active_at(expiration_time: u32, timestamp: u32) -> bool {
    expiration_time == 0 || timestamp <= expiration_time
}

/// A published guardian set. The position of a key in `keys` is that
/// guardian's index.
pub struct GuardianSet {
    pub index: u32,
    pub keys: Vec<[u8; 20]>,
    pub creation_time: u32,
    pub expiration_time: u32,
}

impl GuardianSet {
    /// Whether the set may still be used at `timestamp`.
    pub fn is_active(&self, timestamp: &u32) -> (r: bool)
        ensures
            r == is_active_at(self.expiration_time, *timestamp),
    {
        self.expiration_time == 0 || *timestamp <= self.expiration_time
    }

    /// The number of signatures this set needs for a quorum.
    pub fn quorum(&self) -> (r: usize)
        requires
            self.keys@.len() <= usize::MAX / 2,
        ensures
            r == quorum_of(self.keys@.len()),
    {
        wormhole_raw_vaas::utils::quorum(self.keys.len())
    }
}

} // verus!

use vstd::prelude::*;

use crate::secret::os_random_u64;

verus! {

/// A source of fresh 64-bit identifiers for users, sessions and tokens.
pub trait IdGenerator {
    /// `new_u64` may give `id`. An implementation may define this to say what it promises;
    /// by default nothing is promised.
    open spec fn gives(&self, id: u64) -> bool {
        true
    }

    fn new_u64(&self) -> (r: u64)
        ensures
            self.gives(r),
    ;
}

/// Identifiers drawn at random from the operating system's generator.
#[derive(Clone, Copy, Debug)]
pub struct DefaultIdGenerator {}

impl IdGenerator for DefaultIdGenerator {
    fn new_u64(&self) -> u64 {
        os_random_u64()
    }
}

/// Every identifier is zero: for setups that store no session or token.
#[derive(Clone, Copy, Debug)]
pub struct ZerodIdGenerator {}

impl IdGenerator for ZerodIdGenerator {
    open spec fn gives(&self, id: u64) -> bool {
        id == 0
    }

    fn new_u64(&self) -> (r: u64)
        ensures
            r == 0,
    {
        0
    }
}

/// The signed identifier whose big-endian bytes are those of `id`.
pub open spec fn id_bits(id: u64) -> i64 {
    id as i64
}

/// Reads the bytes of an unsigned identifier as a signed one.
pub fn signed_id(id: u64) -> (r: i64)
    ensures
        r == id_bits(id),
{
    #[verifier::truncate]
    (id as i64)
}

} // verus!

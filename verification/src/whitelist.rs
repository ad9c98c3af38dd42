//! The whitelist record: the admin identity empowered to fund resizes and the
//! set of program identities permitted to request them.
//!
//! The record itself is created and updated elsewhere; a resize call only
//! reads it.

use vstd::prelude::*;

use crate::address::Address;
use crate::error::MessageBufferError;

verus! {

/// The authorization record a resize call consults.
pub struct Whitelist {
    /// The one admin identity; the call's signer must equal it, and it funds
    /// any shortfall.
    pub admin: Address,
    /// The program identities permitted to request resizes.
    pub allowed_programs: Vec<Address>,
    /// The bump byte of the record's own address derivation.
    pub bump: u8,
}

impl Whitelist {
    /// Whether `auth` is one of the allowed program identities.
    pub open spec fn allows(&self, auth: Seq<u8>) -> bool {
        exists|i: int| 0 <= i < self.allowed_programs@.len() && self.allowed_programs@[i]@ == auth
    }

    /// Fails with `Unauthorized` unless `auth` is in the allowed set.
    pub fn is_allowed_program_auth(&self, auth: &Address) -> (r: Result<(), MessageBufferError>)
        ensures
            r is Ok <==> self.allows(auth@),
            r is Err ==> r == Err::<(), MessageBufferError>(MessageBufferError::Unauthorized),
    {
        let mut i: usize = 0;
        while i < self.allowed_programs.len()
            invariant
                0 <= i <= self.allowed_programs@.len(),
                forall|j: int| 0 <= j < i ==> self.allowed_programs@[j]@ != auth@,
            decreases self.allowed_programs@.len() - i,
        {
            if self.allowed_programs[i] == *auth {
                return Ok(());
            }
            i = i + 1;
        }
        Err(MessageBufferError::Unauthorized)
    }
}

} // verus!

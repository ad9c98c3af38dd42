//! Account identities and the deterministic derivation of the buffer
//! account's address.
//!
//! A buffer account's address is not chosen freely: it is recomputed on every
//! call as a function of the caller's authorized program identity, a fixed
//! namespace tag, a base account identity and a bump byte, relative to this
//! program's own identity. A caller therefore cannot supply an arbitrary
//! account and claim it is "their" buffer.

use vstd::prelude::*;

use crate::error::MessageBufferError;

verus! {

/// A 32-byte account identity.
#[derive(Clone, Copy, Debug)]
pub struct Address {
    pub bytes: [u8; 32],
}

impl View for Address {
    type V = Seq<u8>;

    open spec fn view(&self) -> Seq<u8> {
        self.bytes@
    }
}

impl PartialEq for Address {
    fn eq(&self, other: &Address) -> (r: bool) {
        let mut i: usize = 0;
        while i < 32
            invariant
                0 <= i <= 32,
                forall|j: int| 0 <= j < i ==> self.bytes@[j] == other.bytes@[j],
            decreases 32 - i,
        {
            if self.bytes[i] != other.bytes[i] {
                return false;
            }
            i = i + 1;
        }
        proof {
            assert(self.bytes@ =~= other.bytes@);
        }
        true
    }
}

impl Eq for Address {

}

impl vstd::std_specs::cmp::PartialEqSpecImpl for Address {
    open spec fn obeys_eq_spec() -> bool {
        true
    }

    open spec fn eq_spec(&self, other: &Address) -> bool {
        self.bytes@ == other.bytes@
    }
}

/// The fixed namespace tag ("message") that stands between the caller's
/// identity and the base account identity in the derivation's seeds.
pub open spec fn message_tag_spec() -> Seq<u8> {
    seq![109u8, 101u8, 115u8, 115u8, 97u8, 103u8, 101u8]
}

/// The namespace tag as bytes, for handing to the derivation.
pub fn message_tag() -> (r: Vec<u8>)
    ensures
        r@ == message_tag_spec(),
{
    let mut v: Vec<u8> = Vec::new();
    v.push(109);
    v.push(101);
    v.push(115);
    v.push(115);
    v.push(97);
    v.push(103);
    v.push(101);
    proof {
        assert(v@ =~= message_tag_spec());
    }
    v
}

/// The address that the deterministic derivation yields for the given seeds
/// and program identity, or `None` where the derivation fails (a seed over the
/// length limit, or the digest landing on the normal address space).
pub uninterp spec fn derived_address(
    auth: Seq<u8>,
    tag: Seq<u8>,
    base: Seq<u8>,
    bump: u8,
    program: Seq<u8>,
) -> Option<Seq<u8>>;

/// Relies on `Pubkey::create_program_address` (solana-address, re-exported by
/// anchor-lang): the result is a deterministic function of the seeds and the
/// program identity; it is `Err` exactly when a seed exceeds the length limit
/// or the derived bytes form an on-curve point.
#[verifier::external_body]
fn solana_create_program_address(
    auth: &Address,
    tag: &Vec<u8>,
    base: &Address,
    bump: u8,
    program: &Address,
) -> (r: Option<Address>)
    ensures
        r matches Some(a) ==> derived_address(auth@, tag@, base@, bump, program@) == Some(a@),
        r is None ==> derived_address(auth@, tag@, base@, bump, program@) is None,
{
    let seeds: [&[u8]; 4] = [auth.bytes.as_ref(), tag.as_slice(), base.bytes.as_ref(), &[bump]];
    let program_key = anchor_lang::solana_program::pubkey::Pubkey::new_from_array(program.bytes);
    anchor_lang::solana_program::pubkey::Pubkey::create_program_address(&seeds, &program_key)
        .ok()
        .map(|key| Address { bytes: key.to_bytes() })
}

/// Whether `claimed` is exactly the address derived for the given caller
/// identity, base account identity and bump, under `program`.
pub open spec fn buffer_address_ok(
    auth: Seq<u8>,
    base: Seq<u8>,
    bump: u8,
    claimed: Seq<u8>,
    program: Seq<u8>,
) -> bool {
    derived_address(auth, message_tag_spec(), base, bump, program) == Some(claimed)
}

/// Derives the buffer account's address for the given inputs, or `None` where
/// the derivation fails for this bump.
pub fn derive_buffer_address(
    allowed_program_auth: &Address,
    base_account_key: &Address,
    buffer_bump: u8,
    program: &Address,
) -> (r: Option<Address>)
    ensures
        r matches Some(a) ==> buffer_address_ok(
            allowed_program_auth@,
            base_account_key@,
            buffer_bump,
            a@,
            program@,
        ),
        r is None ==> derived_address(
            allowed_program_auth@,
            message_tag_spec(),
            base_account_key@,
            buffer_bump,
            program@,
        ) is None,
{
    let tag = message_tag();
    solana_create_program_address(allowed_program_auth, &tag, base_account_key, buffer_bump, program)
}

/// Address verifier: recomputes the buffer account's address and confirms it
/// equals the address actually supplied at the call site.
pub fn verify_buffer_address(
    allowed_program_auth: &Address,
    base_account_key: &Address,
    buffer_bump: u8,
    claimed: &Address,
    program: &Address,
) -> (r: Result<(), MessageBufferError>)
    ensures
        r is Ok <==> buffer_address_ok(
            allowed_program_auth@,
            base_account_key@,
            buffer_bump,
            claimed@,
            program@,
        ),
        r is Err ==> r == Err::<(), MessageBufferError>(MessageBufferError::InvalidPDA),
{
    match derive_buffer_address(allowed_program_auth, base_account_key, buffer_bump, program) {
        Some(expected) => {
            if expected == *claimed {
                Ok(())
            } else {
                Err(MessageBufferError::InvalidPDA)
            }
        },
        None => Err(MessageBufferError::InvalidPDA),
    }
}

} // verus!

//! The buffer account's storage envelope: a fixed-layout header followed by a
//! variable-length data region, plus the account's funding balance.

use vstd::prelude::*;

use crate::address::Address;
use crate::error::MessageBufferError;

verus! {

/// The mandatory header length in bytes: the 8-byte type discriminator
/// followed by the buffer metadata (bump, version and a 16-bit header size).
pub const HEADER_LEN: u32 = 12;

/// The runtime's hard ceiling on how many bytes an account's storage may grow
/// in a single call.
pub const GROWTH_CEILING: u32 = 10240;

/// Relies on solana's `MAX_PERMITTED_DATA_INCREASE` (re-exported by
/// anchor-lang): an account may grow by at most 10 KiB, 10240 bytes, per call.
#[verifier::external_body]
pub(crate) fn growth_ceiling() -> (r: u32)
    ensures
        r == GROWTH_CEILING,
{
    anchor_lang::solana_program::entrypoint::MAX_PERMITTED_DATA_INCREASE as u32
}

/// The 8-byte tag that identifies an account as a message buffer.
pub open spec fn discriminator_spec() -> Seq<u8> {
    seq![25u8, 244u8, 3u8, 5u8, 225u8, 165u8, 29u8, 250u8]
}

/// The discriminator as bytes, for writing a fresh buffer account's header.
pub fn discriminator() -> (r: Vec<u8>)
    ensures
        r@ == discriminator_spec(),
{
    let mut v: Vec<u8> = Vec::new();
    v.push(25);
    v.push(244);
    v.push(3);
    v.push(5);
    v.push(225);
    v.push(165);
    v.push(29);
    v.push(250);
    proof {
        assert(v@ =~= discriminator_spec());
    }
    v
}

/// A buffer account as the protocol sees it: its identity, its funding
/// balance, and the bytes of its storage region.
pub struct BufferAccount {
    /// The account's address.
    pub key: Address,
    /// The account's funding balance.
    pub lamports: u64,
    /// The storage region; its length is the account's current size.
    pub data: Vec<u8>,
}

/// Whether the leading bytes of a storage region are the buffer discriminator.
pub open spec fn has_discriminator(data: Seq<u8>) -> bool {
    data.len() >= 8 && data.subrange(0, 8) == discriminator_spec()
}

/// A well-formed buffer account holds at least the header and starts with the
/// discriminator.
pub open spec fn well_formed(data: Seq<u8>) -> bool {
    data.len() >= HEADER_LEN && has_discriminator(data)
}

impl BufferAccount {
    /// The account's current size in bytes.
    pub open spec fn spec_size(&self) -> nat {
        self.data@.len()
    }

    /// The account's current size in bytes.
    pub fn size(&self) -> (r: usize)
        ensures
            r == self.spec_size(),
    {
        self.data.len()
    }
}

/// Confirms that the account's leading bytes are the buffer discriminator,
/// i.e. that the supplied account really is a message buffer.
pub fn check_discriminator(account: &BufferAccount) -> (r: Result<(), MessageBufferError>)
    ensures
        r is Ok <==> has_discriminator(account.data@),
        r is Err ==> r == Err::<(), MessageBufferError>(MessageBufferError::InvalidDiscriminator),
{
    if account.data.len() < 8 {
        return Err(MessageBufferError::InvalidDiscriminator);
    }
    let tag = discriminator();
    let mut i: usize = 0;
    while i < 8
        invariant
            0 <= i <= 8,
            account.data@.len() >= 8,
            tag@ == discriminator_spec(),
            forall|j: int| 0 <= j < i ==> account.data@[j] == discriminator_spec()[j],
        decreases 8 - i,
    {
        if account.data[i] != tag[i] {
            proof {
                assert(account.data@.subrange(0, 8)[i as int] == account.data@[i as int]);
            }
            return Err(MessageBufferError::InvalidDiscriminator);
        }
        i = i + 1;
    }
    proof {
        assert(account.data@.subrange(0, 8) =~= discriminator_spec());
    }
    Ok(())
}

/// The storage region after a resize to `target` bytes: a shrink discards the
/// bytes beyond the new size; a growth keeps the whole region and extends it
/// with zero bytes.
pub open spec fn resized_data(data: Seq<u8>, target: int) -> Seq<u8> {
    if target <= data.len() {
        data.subrange(0, target)
    } else {
        data + Seq::new((target - data.len()) as nat, |i: int| 0u8)
    }
}

/// Whether a resize from `current` to `target` bytes stays within the
/// runtime's per-call growth ceiling. A shrink always does.
pub open spec fn growth_within_ceiling(current: int, target: int) -> bool {
    target - current <= GROWTH_CEILING
}

/// Capacity grower: checks the requested growth against the runtime ceiling
/// and resizes the storage envelope in place to exactly `target_size` bytes,
/// in either direction. The unchanged prefix is not disturbed; bytes beyond
/// the old size are zero-filled on growth and discarded on shrink. The
/// account's identity and balance are untouched.
pub fn grow_or_shrink(account: &mut BufferAccount, target_size: u32) -> (r: Result<
    (),
    MessageBufferError,
>)
    ensures
        r is Ok <==> growth_within_ceiling(
            old(account).spec_size() as int,
            target_size as int,
        ),
        r is Err ==> *final(account) == *old(account) && r == Err::<(), MessageBufferError>(
            MessageBufferError::TargetSizeDeltaExceeded,
        ),
        r is Ok ==> final(account).data@ == resized_data(
            old(account).data@,
            target_size as int,
        ),
        final(account).key == old(account).key,
        final(account).lamports == old(account).lamports,
{
    let target: usize = target_size as usize;
    let current: usize = account.data.len();
    let delta: usize = if target > current {
        target - current
    } else {
        0
    };
    if delta > growth_ceiling() as usize {
        return Err(MessageBufferError::TargetSizeDeltaExceeded);
    }
    if target <= current {
        account.data.truncate(target);
    } else {
        while account.data.len() < target
            invariant
                old(account).data@.len() < target,
                old(account).data@.len() <= account.data@.len() <= target,
                account.data@.subrange(0, old(account).data@.len() as int) == old(account).data@,
                forall|j: int|
                    old(account).data@.len() <= j < account.data@.len()
                        ==> account.data@[j] == 0u8,
                account.key == old(account).key,
                account.lamports == old(account).lamports,
            decreases target - account.data.len(),
        {
            account.data.push(0u8);
            proof {
                assert(account.data@.subrange(0, old(account).data@.len() as int) =~= old(
                    account,
                ).data@);
            }
        }
        proof {
            assert(account.data@ =~= resized_data(old(account).data@, target_size as int));
        }
    }
    Ok(())
}

/// Law: a resize of a discriminated account to a size at or above the header
/// length yields a well-formed buffer account of exactly the target size. The
/// discriminator sits in the unchanged prefix, so it survives both a growth
/// and a shrink down to no less than the header; a successful resize call
/// (which checks both conditions) therefore always upholds the account's
/// size invariant.
pub proof fn lemma_resize_preserves_well_formed(data: Seq<u8>, target: int)
    requires
        has_discriminator(data),
        target >= HEADER_LEN,
    ensures
        well_formed(resized_data(data, target)),
        resized_data(data, target).len() == target,
{
    let after = resized_data(data, target);
    assert(after.subrange(0, 8) =~= data.subrange(0, 8));
}

} // verus!

//! The resize protocol: authorization, address verification, size validation,
//! funding reconciliation and the bounded resize itself, sequenced atomically
//! within one call. Any failing step aborts the whole call with no mutation.

use vstd::prelude::*;

use crate::address::buffer_address_ok;
use crate::address::verify_buffer_address;
use crate::address::Address;
use crate::buffer::check_discriminator;
use crate::buffer::grow_or_shrink;
use crate::buffer::growth_within_ceiling;
use crate::buffer::has_discriminator;
use crate::buffer::resized_data;
use crate::buffer::BufferAccount;
use crate::buffer::HEADER_LEN;
use crate::error::MessageBufferError;
use crate::funding::reconcile;
use crate::funding::shortfall_spec;
use crate::funding::transfer_from_admin;
use crate::funding::AdminSigner;
use crate::whitelist::Whitelist;

verus! {

/// The call-site context of a resize: the executing program's own identity,
/// the read-only whitelist record, and the signing admin with its funding
/// balance. The substrate binds the signer to the call before the protocol
/// body runs; the protocol re-checks that it equals the whitelist's recorded
/// admin.
pub struct ResizeBuffer {
    /// The identity of the program that owns the buffer accounts; address
    /// derivations are relative to it.
    pub program_id: Address,
    /// The whitelist record, read-only during a resize.
    pub whitelist: Whitelist,
    /// The signing admin, whose balance funds any shortfall.
    pub admin: AdminSigner,
}

/// The exact result of running the per-account steps of the protocol on a
/// given buffer account: `Ok` or the first failing check's error.
pub open spec fn resize_account_outcome(
    ctx: ResizeBuffer,
    buffer: BufferAccount,
    auth: Seq<u8>,
    base: Seq<u8>,
    bump: u8,
    target_size: u32,
    target_min_balance: u64,
) -> Result<(), MessageBufferError> {
    if !ctx.whitelist.allows(auth) {
        Err(MessageBufferError::Unauthorized)
    } else if !has_discriminator(buffer.data@) {
        Err(MessageBufferError::InvalidDiscriminator)
    } else if (target_size as int) < (HEADER_LEN as int) {
        Err(MessageBufferError::MessageBufferTooSmall)
    } else if !growth_within_ceiling(buffer.data@.len() as int, target_size as int) {
        Err(MessageBufferError::TargetSizeDeltaExceeded)
    } else if !buffer_address_ok(auth, base, bump, buffer.key@, ctx.program_id@) {
        Err(MessageBufferError::InvalidPDA)
    } else if target_size as int >= buffer.data@.len() && shortfall_spec(
        buffer.lamports,
        target_min_balance,
    ) > ctx.admin.lamports as int {
        Err(MessageBufferError::FundingTransferFailed)
    } else {
        Ok(())
    }
}

/// The exact result of a whole resize call: the signer must be the recorded
/// admin, the auxiliary account list must hold the buffer account, and the
/// per-account steps run on its first entry.
pub open spec fn resize_outcome(
    ctx: ResizeBuffer,
    accounts: Seq<BufferAccount>,
    auth: Seq<u8>,
    base: Seq<u8>,
    bump: u8,
    target_size: u32,
    target_min_balance: u64,
) -> Result<(), MessageBufferError> {
    if ctx.admin.key@ != ctx.whitelist.admin@ {
        Err(MessageBufferError::Unauthorized)
    } else if accounts.len() == 0 {
        Err(MessageBufferError::MessageBufferNotProvided)
    } else {
        resize_account_outcome(ctx, accounts[0], auth, base, bump, target_size, target_min_balance)
    }
}

/// The buffer account's balance after a successful call: on the growth-or-keep
/// path it is topped up to the minimum balance the target size requires; on
/// shrink (and when already sufficient) it is unchanged — excess funding is
/// not returned.
pub open spec fn buffer_lamports_after(
    buffer: BufferAccount,
    target_size: u32,
    target_min_balance: u64,
) -> u64 {
    if target_size as int >= buffer.data@.len() && buffer.lamports < target_min_balance {
        target_min_balance
    } else {
        buffer.lamports
    }
}

/// The admin's balance after a successful call: reduced by exactly the
/// shortfall on the growth-or-keep path, untouched on shrink.
pub open spec fn admin_lamports_after(
    ctx: ResizeBuffer,
    buffer: BufferAccount,
    target_size: u32,
    target_min_balance: u64,
) -> int {
    if target_size as int >= buffer.data@.len() {
        ctx.admin.lamports - shortfall_spec(buffer.lamports, target_min_balance)
    } else {
        ctx.admin.lamports as int
    }
}

/// Runs the per-account steps of the protocol on one buffer account: whitelist
/// authorization, discriminator check, size validation, the early growth
/// ceiling check, address verification, funding reconciliation with a transfer
/// of exactly the shortfall, and the resize itself. `target_min_balance` is
/// the rent oracle's report of the minimum balance required at `target_size`.
pub fn resize_buffer_account(
    ctx: &mut ResizeBuffer,
    buffer: &mut BufferAccount,
    allowed_program_auth: &Address,
    base_account_key: &Address,
    buffer_bump: u8,
    target_size: u32,
    target_min_balance: u64,
) -> (r: Result<(), MessageBufferError>)
    ensures
        r == resize_account_outcome(
            *old(ctx),
            *old(buffer),
            allowed_program_auth@,
            base_account_key@,
            buffer_bump,
            target_size,
            target_min_balance,
        ),
        final(ctx).program_id == old(ctx).program_id,
        final(ctx).whitelist == old(ctx).whitelist,
        final(ctx).admin.key == old(ctx).admin.key,
        final(buffer).key == old(buffer).key,
        r is Err ==> *final(ctx) == *old(ctx) && *final(buffer) == *old(buffer),
        r is Ok ==> final(buffer).data@ == resized_data(old(buffer).data@, target_size as int)
            && final(buffer).data@.len() == target_size && final(buffer).lamports
            == buffer_lamports_after(*old(buffer), target_size, target_min_balance)
            && final(ctx).admin.lamports == admin_lamports_after(
            *old(ctx),
            *old(buffer),
            target_size,
            target_min_balance,
        ),
{
    ctx.whitelist.is_allowed_program_auth(allowed_program_auth)?;
    check_discriminator(buffer)?;
    if target_size < HEADER_LEN {
        return Err(MessageBufferError::MessageBufferTooSmall);
    }
    let target: usize = target_size as usize;
    let current: usize = buffer.size();
    let delta: usize = if target > current {
        target - current
    } else {
        0
    };
    if delta > crate::buffer::growth_ceiling() as usize {
        return Err(MessageBufferError::TargetSizeDeltaExceeded);
    }
    verify_buffer_address(
        allowed_program_auth,
        base_account_key,
        buffer_bump,
        &buffer.key,
        &ctx.program_id,
    )?;
    if target >= current {
        // The minimum-balance requirement may have risen since the account was
        // last funded, so the shortfall is covered even when the size is
        // unchanged and the resize below is a no-op.
        let delta_funding = reconcile(buffer.lamports, target_min_balance);
        if delta_funding.shortfall > 0 {
            transfer_from_admin(&mut ctx.admin, buffer, delta_funding.shortfall)?;
        }
    }
    // Excess funding is deliberately not returned on shrink: the account may
    // retain more than the minimum its new size requires.
    match grow_or_shrink(buffer, target_size) {
        Ok(u) => Ok(u),
        Err(e) => Err(e),
    }
}

/// Resize protocol entry point. Looks the buffer account up as the first
/// entry of the call's auxiliary account list, then runs the per-account
/// steps on it. `target_min_balance` is the rent oracle's report of the
/// minimum balance required at `target_size`; the caller queries the oracle
/// and hands the figure in. Either every step succeeds and the account's
/// storage envelope is exactly `target_size` bytes afterwards, or the call
/// fails with the first failing check's error and nothing is mutated.
pub fn resize_buffer(
    ctx: &mut ResizeBuffer,
    remaining_accounts: &mut Vec<BufferAccount>,
    allowed_program_auth: &Address,
    base_account_key: &Address,
    buffer_bump: u8,
    target_size: u32,
    target_min_balance: u64,
) -> (r: Result<(), MessageBufferError>)
    ensures
        r == resize_outcome(
            *old(ctx),
            old(remaining_accounts)@,
            allowed_program_auth@,
            base_account_key@,
            buffer_bump,
            target_size,
            target_min_balance,
        ),
        final(remaining_accounts)@.len() == old(remaining_accounts)@.len(),
        forall|i: int|
            1 <= i < old(remaining_accounts)@.len() ==> final(remaining_accounts)@[i] == old(
                remaining_accounts,
            )@[i],
        final(ctx).program_id == old(ctx).program_id,
        final(ctx).whitelist == old(ctx).whitelist,
        final(ctx).admin.key == old(ctx).admin.key,
        r is Err ==> *final(ctx) == *old(ctx) && final(remaining_accounts)@ == old(
            remaining_accounts,
        )@,
        r is Ok ==> {
            let before = old(remaining_accounts)@[0];
            let after = final(remaining_accounts)@[0];
            &&& after.key == before.key
            &&& after.data@ == resized_data(before.data@, target_size as int)
            &&& after.data@.len() == target_size
            &&& after.lamports == buffer_lamports_after(before, target_size, target_min_balance)
            &&& final(ctx).admin.lamports == admin_lamports_after(
                *old(ctx),
                before,
                target_size,
                target_min_balance,
            )
        },
{
    if !(ctx.admin.key == ctx.whitelist.admin) {
        return Err(MessageBufferError::Unauthorized);
    }
    if remaining_accounts.len() == 0 {
        return Err(MessageBufferError::MessageBufferNotProvided);
    }
    let mut buffer = remaining_accounts.remove(0);
    let r = resize_buffer_account(
        ctx,
        &mut buffer,
        allowed_program_auth,
        base_account_key,
        buffer_bump,
        target_size,
        target_min_balance,
    );
    remaining_accounts.insert(0, buffer);
    proof {
        if r is Err {
            assert(remaining_accounts@ =~= old(remaining_accounts)@);
        }
        assert forall|i: int|
            1 <= i < old(remaining_accounts)@.len() implies remaining_accounts@[i] == old(
            remaining_accounts,
        )@[i] by {
            assert(remaining_accounts@[i] == old(remaining_accounts)@.remove(0)[i - 1]);
        }
    }
    r
}

/// Law: a resize to the account's current size is idempotent. Where such a
/// call succeeds, it leaves the storage region untouched, and a second call
/// with the same arguments on the state the first one leaves behind succeeds
/// too, this time changing neither the storage region nor any balance. (The
/// first call may still have raised the account's balance, where the
/// minimum-balance requirement rose since the account was last funded.)
pub proof fn lemma_resize_idempotent(
    ctx: ResizeBuffer,
    buffer: BufferAccount,
    ctx2: ResizeBuffer,
    buffer2: BufferAccount,
    auth: Address,
    base: Address,
    bump: u8,
    target_size: u32,
    target_min_balance: u64,
)
    requires
        buffer.data@.len() == target_size as int,
        resize_account_outcome(
            ctx,
            buffer,
            auth@,
            base@,
            bump,
            target_size,
            target_min_balance,
        ) is Ok,
        // ctx2 and buffer2 are the state a successful first call leaves behind.
        ctx2.program_id == ctx.program_id,
        ctx2.whitelist == ctx.whitelist,
        ctx2.admin.key == ctx.admin.key,
        ctx2.admin.lamports == admin_lamports_after(ctx, buffer, target_size, target_min_balance),
        buffer2.key == buffer.key,
        buffer2.data@ == resized_data(buffer.data@, target_size as int),
        buffer2.lamports == buffer_lamports_after(buffer, target_size, target_min_balance),
    ensures
        // The first call was a no-op on the storage region.
        buffer2.data@ == buffer.data@,
        // The second call succeeds as well,
        resize_account_outcome(
            ctx2,
            buffer2,
            auth@,
            base@,
            bump,
            target_size,
            target_min_balance,
        ) is Ok,
        // and is a no-op on the storage region and on both balances.
        resized_data(buffer2.data@, target_size as int) == buffer2.data@,
        buffer_lamports_after(buffer2, target_size, target_min_balance) == buffer2.lamports,
        admin_lamports_after(ctx2, buffer2, target_size, target_min_balance)
            == ctx2.admin.lamports as int,
{
    assert(buffer2.data@ =~= buffer.data@);
}

} // verus!

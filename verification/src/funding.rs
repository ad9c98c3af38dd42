//! Funding reconciliation: how much must move from the admin's funding source
//! to the buffer account so that the account meets the minimum balance its
//! target size requires.
//!
//! On shrink, excess funding is deliberately not returned: the account may
//! retain more than strictly required.

use vstd::prelude::*;

use crate::address::Address;
use crate::buffer::BufferAccount;
use crate::error::MessageBufferError;

verus! {

/// The signing admin: its identity and the balance of its funding source.
pub struct AdminSigner {
    /// The signer's identity; it must equal the whitelist's recorded admin.
    pub key: Address,
    /// The balance the admin can fund shortfalls from.
    pub lamports: u64,
}

/// The funding that must move to the buffer account in this call; zero means
/// no transfer occurs.
pub struct FundingDelta {
    /// How much the buffer account's balance falls short of the minimum
    /// balance its target size requires.
    pub shortfall: u64,
}

/// The shortfall of `balance` against `target_min_balance`, never negative.
pub open spec fn shortfall_spec(balance: u64, target_min_balance: u64) -> int {
    if balance < target_min_balance {
        target_min_balance - balance
    } else {
        0
    }
}

/// Funding reconciler: computes how much the buffer account's balance falls
/// short of the minimum balance required at the target size. A balance already
/// at or above the requirement yields a zero shortfall, even when the size is
/// unchanged.
pub fn reconcile(current_balance: u64, target_min_balance: u64) -> (r: FundingDelta)
    ensures
        r.shortfall == shortfall_spec(current_balance, target_min_balance),
{
    if current_balance < target_min_balance {
        FundingDelta { shortfall: target_min_balance - current_balance }
    } else {
        FundingDelta { shortfall: 0 }
    }
}

/// Moves `amount` from the admin's funding source to the buffer account, or
/// fails without moving anything when the source cannot cover it.
pub fn transfer_from_admin(
    admin: &mut AdminSigner,
    account: &mut BufferAccount,
    amount: u64,
) -> (r: Result<(), MessageBufferError>)
    requires
        old(account).lamports + amount <= u64::MAX,
    ensures
        r is Ok <==> old(admin).lamports >= amount,
        r is Err ==> *final(admin) == *old(admin) && *final(account) == *old(account) && r
            == Err::<(), MessageBufferError>(MessageBufferError::FundingTransferFailed),
        r is Ok ==> final(admin).lamports == old(admin).lamports - amount
            && final(account).lamports == old(account).lamports + amount,
        final(admin).key == old(admin).key,
        final(account).key == old(account).key,
        final(account).data == old(account).data,
{
    if admin.lamports < amount {
        return Err(MessageBufferError::FundingTransferFailed);
    }
    admin.lamports = admin.lamports - amount;
    account.lamports = account.lamports + amount;
    Ok(())
}

} // verus!

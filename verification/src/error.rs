//! The errors with which a resize call can be rejected.
//!
//! Every error aborts the whole call: no check is retried and no partial
//! mutation is left behind.

use vstd::prelude::*;

verus! {

/// Why a resize call was rejected.
#[derive(Clone, Copy, Debug, PartialEq, Eq, Structural)]
pub enum MessageBufferError {
    /// The auxiliary account list does not hold the buffer account.
    MessageBufferNotProvided,
    /// The caller's program identity is not whitelisted, or the signer is not
    /// the whitelist's recorded admin.
    Unauthorized,
    /// The supplied account's leading bytes are not the buffer discriminator:
    /// the account is not a message buffer.
    InvalidDiscriminator,
    /// The requested size is below the mandatory header length.
    MessageBufferTooSmall,
    /// The requested growth exceeds the runtime's per-call ceiling.
    TargetSizeDeltaExceeded,
    /// The supplied buffer account's address does not match the deterministic
    /// derivation from the call's arguments.
    InvalidPDA,
    /// The admin's funding source cannot cover the shortfall, or the substrate
    /// rejected the transfer.
    FundingTransferFailed,
    /// The storage substrate rejected the in-place resize. The verified model
    /// never produces this; the on-chain shell reports it when the runtime
    /// refuses a reallocation.
    ReallocFailed,
}

} // verus!

//! Resize protocol for a shared message-buffer account on a resource-metered
//! ledger.
//!
//! A buffer account is a fixed-format storage region (an 8-byte type
//! discriminator followed by buffer metadata and data) whose capacity may grow
//! over time. The ledger only permits a bounded per-call size increase and
//! requires every byte of storage to be pre-funded with a minimum balance.
//! This crate verifies the resize protocol: authorization of the caller,
//! re-derivation and verification of the buffer account's deterministic
//! address, computation of the funding shortfall, and bounded growth or
//! unbounded shrink of the storage envelope.

pub mod address;
pub mod buffer;
pub mod error;
pub mod funding;
pub mod resize;
pub mod whitelist;

pub use address::Address;
pub use buffer::BufferAccount;
pub use error::MessageBufferError;
pub use funding::AdminSigner;
pub use funding::FundingDelta;
pub use resize::resize_buffer;
pub use resize::ResizeBuffer;
pub use whitelist::Whitelist;

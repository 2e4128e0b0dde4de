//! Identity-and-policy enforcement engine that gates high-value asset
//! transfers behind post-quantum signature verification.
//!
//! The crate keeps per-principal quantum identity records (a classical
//! signing key bound to a post-quantum public key plus a value threshold)
//! and a per-asset hook policy record whose decision procedure intercepts
//! transfer attempts and answers ALLOW or BLOCK from the sender's
//! registered threshold and the asset's enforcement mode.
//!
//! Storage, caller authentication, the clock and the event sink are
//! collaborators supplied by the surrounding runtime; every operation here
//! is a pure transition on one or two records, stated by its contract.

pub mod constants;
pub mod digest;
pub mod errors;
pub mod hook;
pub mod identity;
pub mod oracle;
pub mod record;

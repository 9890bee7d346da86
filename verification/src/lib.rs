//! Block-level governance and settlement core for a proof-of-work ledger.
//!
//! A privileged authority may adjust the mining difficulty and the per-block
//! issuance reward; the block producer claims authorship once per block
//! through an inherent, and the configured reward is paid to that author
//! exactly once, at block finalization.

pub mod account;
pub mod ledger;
pub mod pow_params;
pub mod chain_spec;
pub mod inherent;

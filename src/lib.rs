//! Accounting and trust rules of a gaming rewards treasury: a treasury ledger
//! fed by harvested yield, a registry of staked oracles, a per-user
//! verification state machine, a rate-limited claim processor, a staking
//! manager and a security policy engine with a bounded audit log.
pub mod errors;
pub mod keys;
pub mod encoding;
pub mod crypto;
pub mod treasury;
pub mod oracle;
pub mod verification;
pub mod staking;
pub mod claims;
pub mod security;
pub mod protocol;
pub mod achievements;

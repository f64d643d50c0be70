//! Market adapter for the Perena Bankineco vault: a cached view of the
//! venue's on-chain state, a deterministic quoting engine over it, and the
//! ordered account list of the vault program's swap instruction.

pub mod address;
pub mod bytes;
pub mod state;
pub mod accounts;
pub mod quote;
pub mod amm;
pub mod laws;

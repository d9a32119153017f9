//! Validation of textual cryptocurrency addresses for Ethereum, Bitcoin and
//! Solana, producing an itemised report of named checks.

pub mod base58;
pub mod chains;
pub mod checksum;
pub mod laws;
pub mod report;
pub mod text;

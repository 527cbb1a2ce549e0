//! Record-management core of an NFT issuance program: issuance templates,
//! events with capacity bookkeeping, and per-holding balances seeded at mint
//! time, with their fixed record layouts and derived addresses.

pub mod address;
pub mod error;
pub mod instructions;
pub mod laws;
pub mod mint;
pub mod records;

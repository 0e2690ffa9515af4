//! Verified core of a one-off NFT issuance handler.
//!
//! The library validates the fixed set of account relationships that a
//! single-token mint requires, builds the three privileged instructions
//! (create metadata, mint one unit, create master edition) and models the
//! strictly ordered, all-or-nothing call sequence that issues the token.

pub mod address;
pub mod instructions;
pub mod issuance;
pub mod model;
pub mod pda;
pub mod phases;
pub mod programs;

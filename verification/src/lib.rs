//! Verified core of a small Solana toolkit.
//!
//! The building blocks are addresses ([`pubkey`]), signing keys ([`keypair`]), signed transfers
//! ([`transaction`]) and the texts of the tools ([`text`]). On them stand a transfer as a state
//! machine ([`transfer`]), its attempts ([`retry`], [`session`]), the decisions of the four tools
//! ([`geyser`], [`polling`], [`cli`], [`balance`]) and the vault program ([`contract`]).

pub mod balance;
pub mod cli;
pub mod config;
pub mod contract;
pub mod geyser;
pub mod keypair;
pub mod polling;
pub mod pubkey;
pub mod retry;
pub mod session;
pub mod text;
pub mod transaction;
pub mod transfer;

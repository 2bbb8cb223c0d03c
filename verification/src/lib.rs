//! A vault that takes deposits of two native tokens in a 1:1 ratio, issues shares for them,
//! and bonds the shares with two strategy contracts, one per token.
//!
//! The vault's state is the storage model [`state::Vault`]; every message the contract
//! handles is a verified transition of that model.

pub mod assets;
pub mod contract;
pub mod decimal;
pub mod error;
pub mod helpers;
pub mod laws;
pub mod model;
pub mod msg;
pub mod response;
pub mod state;
pub mod strategy_mock;
pub mod table;

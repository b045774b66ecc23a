//! Planning of the transactions that provision a token mint, its associated
//! token account and an initial balance for integration tests.
//!
//! The library decides what goes into each transaction: the instructions,
//! their account lists and data, the fee payer and the signers. Keys are
//! generated, transactions signed and sent by the caller.

pub mod address;
pub mod error;
pub mod fixture;
pub mod instruction;
pub mod laws;
pub mod layout;
pub mod plan;
pub mod sdk;

pub use address::{Address, Blockhash};
pub use error::MintFixtureError;
pub use fixture::{MintFixture, MintFixtureClient};
pub use instruction::{AccountMeta, Instruction};
pub use plan::TransactionPlan;

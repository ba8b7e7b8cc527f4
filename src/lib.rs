//! Epoch ledger and reward accounting for an NFT staking pool.
//!
//! Depositors lock a token against a pool; rewards are added per epoch
//! ("payroll") and paid out pro rata to the power of each position.
pub mod address;
pub mod claim;
pub mod codec;
pub mod common;
pub mod deposit;
pub mod epoch;
pub mod error;
pub mod instruction;
pub mod rewards;
pub mod seeds;
pub mod setup;
pub mod state;
pub mod withdrawal;

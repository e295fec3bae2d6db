//! Off-chain control logic for a proof-of-work token-mining contract on a
//! UTXO ledger: the emission schedule, the clock-to-slot calibration, the
//! genesis hash, the search for the authoritative state output, and the
//! transaction intents of the contract's operations.

pub mod contract;
pub mod datums;
pub mod error;
pub mod hash;
pub mod intent;
pub mod ledger;
pub mod mutations;
pub mod output;
pub mod queries;
pub mod redeemers;
pub mod reward;
pub mod scripts;
pub mod slot;
pub mod token;

pub use contract::Fortuna;
pub use error::FortunaError;
pub use queries::Puzzle;

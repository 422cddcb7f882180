//! A two-asset, oracle-priced liquidity pool: a persisted pool record with a
//! fixed byte layout, validators for every account identity the pool touches,
//! a fixed-point pricing engine, and the instruction state machine that
//! sequences them. Value transfers themselves (token transfers, mints, burns,
//! account creation) are issued by the embedding program from the plans this
//! library computes.

pub mod error;
pub mod instructions;
pub mod keys;
pub mod ledger;
pub mod math;
pub mod oracle;
pub mod pda;
pub mod pricing;
pub mod processor;
pub mod state;

//! Liquid-staking accounting engine: exchange-rate math, weighted delegate
//! distribution, the stake / unbond state machine and its unbonding queue.
pub mod decimal;
pub mod error;
pub mod math;
pub mod distribution;
pub mod state;
pub mod msg;
pub mod helpers;
pub mod delegates;
pub mod transitions;
pub mod execute;
pub mod query;
pub mod contract;
pub mod conservation;
pub mod queue;

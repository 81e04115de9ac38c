//! The wallet: one owner, a pool of recovery voters, and the executors that
//! act for the wallet on each chain.

pub mod contract;
pub mod error;
pub mod laws;
pub mod model;
pub mod msg;
pub mod state;

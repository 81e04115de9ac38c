//! A wallet contract with one owner, recovery of ownership by vote, a replay
//! guard, and executors that act for the wallet on each chain; the factory
//! that creates wallets and indexes them by owner; and the executor itself.
//!
//! Each contract is a state machine over what it keeps. The modules `model`
//! define the machines over mathematical values, the modules `contract` hold
//! the executable functions, proved to do what the models say, and the
//! modules `laws` prove what follows. Reading and writing the chain's storage
//! is left to the caller: every function takes what the contract keeps and
//! hands back what it keeps afterwards.

pub mod host;
pub mod laws;
pub mod master;
pub mod slave_samechain;
pub mod trusted;
pub mod types;

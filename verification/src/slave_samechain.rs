//! The executor: it runs, on its own chain, what the wallet that owns it
//! sends.

pub mod contract;
pub mod error;
pub mod model;
pub mod msg;
pub mod state;

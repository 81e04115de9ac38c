//! The factory: it creates wallets and executors from code templates and
//! keeps the index from each owner to the owner's wallet.

pub mod contract;
pub mod error;
pub mod laws;
pub mod model;
pub mod msg;
pub mod state;

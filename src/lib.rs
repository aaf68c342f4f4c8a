//! Reverse-swap engine: sends Lightning funds to an on-chain address through a
//! hash-locked atomic swap with a swap provider, and claims the locked funds.
pub mod address;
pub mod claim;
pub mod hex;
pub mod keys;
pub mod model;
pub mod moonpay;
pub mod store;
pub mod swapper;

//! Client-side building blocks for landing Solana transactions quickly:
//! compute-budget sizing, blockhash expiry tracking, confirmation polling
//! decisions, v0 transaction assembly and Jito block-engine requests.

pub mod compute_budget;
pub mod blockhash;
pub mod confirmation;
pub mod transaction_builder;
pub mod jito;

//! A remote-signing transaction pipeline for a Substrate-style chain.
//!
//! The library covers the logic of the pipeline: deriving the canonical
//! signing payload a wallet must display and sign, decoding the wallet's
//! signature response, assembling the signed transaction, and extracting
//! the business outcome from the events of the block that included it.
//! Network transport and the browser bridge stay outside; they hand the
//! library plain values and take plain values back.

pub mod account;
pub mod balance;
pub mod call;
pub mod errors;
pub mod events;
pub mod hexfmt;
pub mod payload;
pub mod pipeline;
pub mod scale;
pub mod signature;

//! Price-oracle updater library.
//!
//! Fetches of market data and submission of the signed transaction are I/O
//! and live outside this crate; everything that decides, converts, encodes
//! or signs is here, with its contract.

pub mod codec;
pub mod errors;
pub mod fiat;
pub mod fixed;
pub mod identity;
pub mod pipeline;
pub mod rates;
pub mod txbuild;

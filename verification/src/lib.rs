//! Accounting engine for a multi-phase token sale with vesting and tiered rewards.

pub mod accrual;
pub mod demo;
pub mod error;
pub mod mlm;
pub mod sale;
pub mod state;
pub mod treasury;
pub mod vesting;

pub use sale::{determine_current_phase, start_ico, BuyTokens, InitializeSolhitToken, StartIco};

//! A ledger of client accounts driven by deposits, withdrawals, disputes,
//! resolutions and chargebacks.
//!
//! Money is held as a whole number of ten-thousandths, so every balance has
//! exactly four decimal places and sums are exact or fail.

pub mod account;
pub mod action;
pub mod amount;
pub mod engine;
pub mod laws;
pub mod parser;
pub mod transaction;

pub use crate::account::Account;
pub use crate::action::{Action, ActionError, ActionResult};
pub use crate::engine::TransactionEngine;
pub use crate::parser::Parser;
pub use crate::transaction::{ClientId, Transaction, TransactionId, TransactionType};

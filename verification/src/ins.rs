//! The three operations: list, settle, cancel.

pub mod buy_now;
pub mod cancel_sell;
pub mod sell;

//! A one-byte counter program: a fixed-width codec for the counter state and
//! a dispatcher that creates or increments the counter held in an account.

pub mod account;
pub mod error;
pub mod processor;
pub mod state;

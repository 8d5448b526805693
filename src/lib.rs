//! A two-party token escrow: a maker locks an amount of one token in a vault
//! controlled by a derived authority, and either a taker swaps it for the
//! amount of a second token the maker asked for, or the maker takes it back.
pub mod address;
pub mod authority;
pub mod error;
pub mod make;
pub mod program;
pub mod refund;
pub mod state;
pub mod take;
pub mod token;

pub use program::{make, refund, take};

//! Relay of accounts over an ordered channel between two ledgers.
//!
//! The relay keeps one record for each connected channel: what it knows of
//! the account that acts for it on the other ledger. Commands send packets
//! over a channel; acknowledgements that come back later update the record.
//!
//! - [`rules`] states what each operation answers and leaves in the store,
//!   as mathematical functions; [`laws`] proves what follows from them.
//! - [`contract`] holds the operations themselves, each proved to follow
//!   the rules; [`state`] holds the store they work on, and [`lexical`] the
//!   order in which the store lists its channels.
//! - [`msg`], [`ibc_msg`], [`ibc`], [`response`], [`env`], [`coin`] and
//!   [`error`] hold the values that go in and out.
//! - [`reflect_msg`] holds the messages of the contract on the other ledger.
//! - [`hackatom`] is a second, small contract: an escrow. [`storage`] keeps
//!   the state of such a contract, and [`math`] holds numbers and fractions.

pub mod coin;
pub mod contract;
pub mod env;
pub mod error;
pub mod hackatom;
pub mod ibc;
pub mod ibc_msg;
pub mod laws;
pub mod lexical;
pub mod math;
pub mod msg;
pub mod reflect_msg;
pub mod response;
pub mod rules;
pub mod state;
pub mod storage;

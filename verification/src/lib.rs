//! Settlement engine for pari-mutuel price-prediction rounds.
//!
//! Bettors stake on how a price moves over a round. When the round is over,
//! an oracle price decides the winners, and the pool is split among them by
//! weight, after a fee. Everything here works on plain values: the caller
//! reads accounts, the clock and the oracle, hands the values in, carries
//! out the transfers an operation asks for and writes the records back.
//!
//! - [`constants`], [`error`], [`state`]: the vocabulary and the records.
//! - [`address`]: account addresses and the canonical addresses of records.
//! - [`utils`]: the weight of a bet and the normalization of prices.
//! - [`capture`], [`settlement`]: steps several operations share.
//! - [`instructions`]: the operations, one module each.
//! - [`ledger`]: a model of the bets of a round, and the law of its pool.

pub mod address;
pub mod capture;
pub mod constants;
pub mod error;
pub mod instructions;
pub mod ledger;
pub mod settlement;
pub mod state;
pub mod utils;

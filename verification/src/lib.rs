//! Session and state synchronisation for a streaming exchange client.
//!
//! The crate signs requests, tracks the lifecycle of a streaming session,
//! keeps a snapshot of recent price buckets, the top of the order book and
//! account balances, and derives a trading signal from that snapshot. It
//! does no I/O: the program around it connects, reads the clock and sleeps.
//!
//! * `signer`, `request`: signatures and signed requests.
//! * `session`, `heartbeat`: the lifecycle and the keepalive of a stream.
//! * `rusty_bot_models`, `decimal`: the records of the exchange and their
//!   numbers.
//! * `dispatcher`, `state_store`: what each message does to the snapshot.
//! * `strategies`: the decision that is taken from the snapshot.
//! * `config`, `error`, `text`: settings, errors and text utilities.
//!
//! Every function is verified against the contract that it states. The
//! functions that call into other crates state theirs without proof; each
//! says so where it stands.

pub mod config;
pub mod decimal;
pub mod dispatcher;
pub mod error;
pub mod heartbeat;
pub mod request;
pub mod rusty_bot_models;
pub mod session;
pub mod signer;
pub mod state_store;
pub mod strategies;
pub mod text;

//! Core logic of a pair of cooperating oracle smart contracts.
//!
//! An `oracle` contract stores a single value/decimals/timestamp reading,
//! meters access to it with a per-call fee, accrues the collected fees, and
//! lets its owner withdraw them.  An `oracle_client` contract requests that
//! reading through a cross-contract sub-call and caches the reply locally.
//! The reading travels between the two contracts as decimal-string event
//! attributes; `codec` defines that numeral format and proves it round-trips.
//!
//! Every entry operation is a pure function from the contract's current state
//! and the incoming message to the next state and a response (or an error).
//! The host runtime around the contracts — storage, message dispatch and
//! (de)serialization — supplies the inputs and applies the outputs.

pub mod codec;
pub mod oracle;
pub mod oracle_client;
pub mod types;

pub use codec::{parse_u128, parse_u64, u128_to_dec};

//! Client-side packet and completion handling for a remote ledger service.
//!
//! The library holds the parts of the client that decide: how wire status
//! codes decode into error kinds, how fixed-layout records are laid out as
//! bytes, how a packet is routed before it crosses the foreign boundary, and
//! how a completion is turned into the reply that the waiting caller gets.

pub mod error;
pub mod transfer;
pub mod query_filter;
pub mod account;
pub mod packet;
pub mod id;
pub mod codec;
pub mod reply;
pub mod client;

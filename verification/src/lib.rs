//! Addressable, persistent actors that exchange tagged messages through
//! per-recipient mailboxes, together with the chat, behavior and transport
//! rules built on them.
//!
//! Everything here is a pure decision: the caller performs the store, model
//! and socket work and hands the outcomes in as plain values.

pub mod actor;
pub mod behavior;
pub mod chat;
pub mod engine;
pub mod error;
pub mod hub;
pub mod mailbox;
pub mod send;
pub mod transport;

//! Durable local state for an end-to-end-encrypted messaging client.
//!
//! The crate models the client's encrypted relational store: users,
//! conversations, messages, cryptographic sessions, the outbound delivery
//! queue with its lease-based locking protocol, the deduplicating inbound
//! intake tables, and refresh-job watermarks. All row content that belongs
//! to the cryptographic layer is carried as opaque bytes and never parsed.

pub mod contact;
pub mod errors;
pub mod ids;
pub mod intake;
pub mod jobs;
pub mod models;
pub mod persistence;
pub mod queue;
pub mod records;
pub mod store;

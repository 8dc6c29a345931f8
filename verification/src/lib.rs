//! A gateway library for a chat backend: a wire codec for JSON frames, a
//! correlation table matching outbound requests to inbound responses, a
//! session supervisor with fixed-delay reconnection, an event fan-out
//! dispatcher, an expiry sweeper, and a downstream bridge that mirrors the
//! same machinery against a secondary backend.

pub mod apps;
pub mod chat;
pub mod event_decode;
pub mod events;
pub mod frame;
pub mod gscore;
pub mod jmodel;
pub mod json;
pub mod message;
pub mod proto;
pub mod session;
pub mod supervisor;
pub mod table;

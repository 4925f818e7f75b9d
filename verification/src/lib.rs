//! The connection and broadcast hub of a real-time chat server, with the
//! rules of the routes around it.
//!
//! The hub authenticates a connection (`gate`), keeps track of who is online
//! (`presence`), caches roles and decides on access (`access`), handles what
//! arrives on a connection (`inbound`), and filters what a connection is sent
//! from the bus (`outbound`). The caller owns the transport, the bus and the
//! persistent store: each function here takes what the caller read and says
//! what is to be done next.
//!
//! `auth`, `rooms`, `messages`, `uploads` and `crypto` hold the types and the
//! rules of the routes that manage accounts, rooms, stored messages, uploads
//! and sealed tokens.

pub mod access;
pub mod auth;
pub mod crypto;
pub mod frame;
mod fresh;
pub mod gate;
pub mod inbound;
pub mod json;
pub mod messages;
pub mod outbound;
pub mod presence;
pub mod rooms;
pub mod text;
pub mod uploads;

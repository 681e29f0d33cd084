//! Connection lifecycle and message routing for a JSON-RPC-over-WebSocket
//! trading session.
//!
//! The crate holds the decisions of a persistent client session: which id a
//! request gets, which waiter an inbound reply belongs to, which queue a
//! notification is forwarded to, what the supervisor and the single-connection
//! runner do next. Sockets, timers and tasks live with the caller, who feeds
//! events in and carries actions out.

pub mod types;
pub mod outside;
pub mod scan;
pub mod envelope;
pub mod echo;
pub mod pending;
pub mod registry;
pub mod routing;
pub mod runner;
pub mod supervisor;
pub mod ws_client;
pub mod manual_models;

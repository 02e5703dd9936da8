//! A local hub that multiplexes long-lived child processes speaking
//! line-delimited JSON-RPC over stdio behind a local stream socket and an
//! HTTP endpoint with Server-Sent-Events session resumption.
//!
//! This crate holds the routing and supervision core: child lifecycle
//! decisions, request routing by server name, session state with a bounded
//! replay buffer, and the response-mode logic of the HTTP transport. The
//! surrounding process management and network I/O live outside the library
//! and drive these functions with plain values.

pub mod cli;
pub mod config;
pub mod http;
pub mod metrics;
pub mod message;
pub mod router;
pub mod session;
pub mod supervisor;
pub mod text;
pub mod ws;

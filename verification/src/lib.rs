//! A small key-value storage platform, verified with Verus.
//!
//! Storage daemons listen on Unix sockets and answer framed requests from a
//! bucketed, persistent store; a gateway reaches them through connectors that
//! reuse one stream each. This crate holds what those processes decide:
//!
//! - `protocol`: the wire format of requests and responses.
//! - `buckets`: the fixed tables of bucket names.
//! - `store`: the bucket store, viewed as a map, over the engine in `engine`.
//! - `daemon`: what a daemon answers to one frame, and what the frame does to
//!   the store.
//! - `connection`: the life of one accepted connection.
//! - `connector`: the gateway's client for one daemon, and when it reconnects.
//! - `auth` and `session`: who may use the gateway, and its in-memory map.
//!
//! Sockets, threads, locks and HTTP are the caller's. The only code that is
//! taken on trust is the boundary to the `kv` crate in `engine`.

pub mod auth;
pub mod buckets;
pub mod connection;
pub mod connector;
pub mod daemon;
pub mod engine;
pub mod protocol;
pub mod session;
pub mod store;

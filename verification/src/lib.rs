//! Core of a small HTTP-over-TCP user-account service: connection ingestion
//! and dispatch. The library holds the verified logic — round-robin dispatch
//! across a fixed pool of workers, per-worker concurrency slots, token-bucket
//! rate limiting in three tiers, request-line routing, and the decision
//! machines each route handler runs through. All I/O (sockets, the database,
//! signals, clocks) stays outside and feeds these machines plain values.

pub mod conn;
pub mod dispatch;
pub mod handlers;
pub mod http;
pub mod limiter;
pub mod model;
pub mod parse;
pub mod validate;
pub mod worker;

//! A chat-driven scream counter.
//!
//! One writer (the chat listener) folds recognized commands over a shared
//! counter; any number of viewers read snapshots of the value or subscribe to
//! change notifications. This crate holds the verified core: the command
//! grammar, the badge-based authorization predicates, the counter update
//! protocol, and the decimal rendering of the value. The chat connection, the
//! HTTP server and the concurrency plumbing live outside, hand the core plain
//! values, and take plain values back.

pub mod auth;
pub mod command;
pub mod counter;
pub mod render;
pub mod text;

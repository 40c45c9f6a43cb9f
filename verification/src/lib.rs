//! A transport-agnostic call router: it correlates many concurrent, possibly
//! streaming remote calls on one connection by request id, forwards their
//! replies to a transport sender and propagates cooperative cancellation.
//!
//! The router is a state machine that one owner drives: every operation
//! takes the router by reference, and what it does to the router's state and
//! to its sender is stated and proved. Whoever shares a router between
//! threads puts it behind a lock.
//!
//! - [`utils`]: cancellation tokens.
//! - [`router`]: requests and replies, the registry of calls, the handles
//!   that handlers reply through, and the dispatch to a handler;
//!   [`router::laws`] holds what is proved of the registry.
//! - [`wire`]: the shapes of requests and replies as JSON documents, with
//!   the proof that what is encoded is decoded as itself; [`json`] holds the
//!   documents.
//! - [`receiver`], [`context`]: a session and what a handler is told of it.
//! - [`handler`], [`pathfinder`], [`storage`]: the two graph operations, as
//!   far as they decide, and the store that they may cache in.
//! - [`types`], [`catalog`]: values that travel with calls and replies.

pub mod catalog;
mod clock;
pub mod context;
pub mod handler;
pub mod json;
pub mod pathfinder;
pub mod receiver;
pub mod router;
pub mod storage;
pub mod types;
pub mod utils;
pub mod wire;

//! A lazy, incrementally populated cache for a single network resource,
//! driven by a small finite-state machine.
//!
//! The cache issues network work in increasing cost order (a cheap metadata
//! probe before a full body fetch) and resolves only the response properties
//! the caller actually asks for. Callers may register interrupt conditions
//! that halt further network work while keeping already-resolved data.

pub mod cache;
pub mod fsm;
pub mod resource;
pub mod states;

pub use cache::{HttpCache, HttpCacheData, InterruptCondition};
pub use resource::{Method, Request};

//! Core rules of a social "likes" service: identifiers, cache keys, the
//! circuit breaker, the decision flows of the like service, request
//! validation, pagination and error mapping.
pub mod ids;
pub mod errors;
pub mod circuit_breaker;
pub mod content;
pub mod config;
pub mod keys;
pub mod sse;
pub mod dto;
pub mod count_flow;
pub mod like_flow;
pub mod leaderboard;
pub mod batch;
pub mod batch_flow;
pub mod pagination;
pub mod parse;
pub mod auth;
pub mod rate_limit;
pub mod validation;
pub mod mock;

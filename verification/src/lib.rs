//! Verified core of an MCP bridge to the OpenGrok code-search REST API.

pub mod access;
pub mod cache;
pub mod config;
pub mod domain;
pub mod format;
pub mod metrics;
pub mod mock;
pub mod rate_limit;
pub mod request;
pub mod service;
pub mod text;
pub mod tls;
pub mod tools;

//! Decision logic of a dynamic-DNS agent for IPv6: it combines the network
//! prefix a host currently has with a fixed per-service host suffix, compares
//! the result with the AAAA record a DNS provider publishes, and says which
//! request, if any, brings the record in line.
//!
//! Nothing here performs I/O. Every function maps plain values to plain
//! values; the caller sends the requests and reports what came back.

pub mod address;
pub mod config;
pub mod rate_limit;
pub mod providers;
pub mod registry;
pub mod service;
pub mod run;

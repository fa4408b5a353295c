//! A small bridge between a directory of JSON broadcast files and HTTP
//! consumers: an in-memory cache of the latest payload per dataset, the
//! decision logic of a filesystem watcher that fills it, a blocking-read
//! coordinator with wait-for-change-or-timeout semantics, and the routing
//! and response rules of the HTTP surface.

pub mod bom;
pub mod cache;
pub mod config;
pub mod coordinator;
pub mod dataset;
pub mod http;
pub mod server;
pub mod watcher;

//! Core of a telemetry backend for a tracked vessel.
//!
//! The vessel makes trips along registered paths, takes readings on a trip
//! and leaves a history of positions. This crate holds what the service
//! decides: how a coordinate is written and read, what a stored row shows,
//! what the CSV export of a trip holds and which timestamps it carries, which
//! request each operation makes to storage and what it answers once storage
//! has answered. Sending, storing and writing out are left to its caller.
//!
//! - [`number`], [`json`], [`coordinates`], [`clock`], [`ident`]: the values;
//! - [`storage`]: the requests to storage and their failures;
//! - [`export`]: the records of a CSV document;
//! - [`api`]: the operations, resource by resource, and the table of routes.

pub mod number;
pub mod text;
pub mod json;
pub mod coordinates;
pub mod clock;
pub mod ident;
pub mod error;
pub mod export;
pub mod storage;
pub mod memory;
pub mod api;

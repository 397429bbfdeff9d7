//! Resolution of a requested protoc release against a published release
//! catalog, and construction of the per-platform artifact location.
pub mod version;
pub mod text;
pub mod constraint;
pub mod resolve;
pub mod catalog;
pub mod fetch;
pub mod platform;
pub mod config;
pub mod loose;

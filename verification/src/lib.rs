//! Build-time resolution of query metadata and typed decoding of result values.
//!
//! The crate decides, for one embedded query, whether its description comes from
//! a live data source or from a cached artifact, matches it to a registered
//! driver, checks its shape and selects the binding to generate. It also holds
//! the decoding capability that turns raw backend values into host values.

pub mod config;
pub mod decode;
pub mod error;
pub mod query;
pub mod text;
pub mod type_info;

//! Typed client core for the Clash of Clans REST API.
//!
//! The crate plans requests, validates identifiers and classifies responses;
//! every item is verified. Network I/O and JSON decoding of records happen
//! outside of it, on the values these functions hand out.

pub mod api;
pub mod errors;

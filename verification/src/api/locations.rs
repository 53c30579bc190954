//! Locations and their rankings.

pub mod models;
pub mod requests;

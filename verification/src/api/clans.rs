//! Clans: search, records, wars and capital raids.

pub mod models;
pub mod requests;
pub mod search;

//! The Gold Pass.

pub mod models;
pub mod requests;

//! Leagues of every kind.

pub mod models;
pub mod requests;

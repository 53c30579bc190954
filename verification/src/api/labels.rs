//! Labels of players and clans.

pub mod models;
pub mod requests;

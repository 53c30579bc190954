//! Pieces shared by every endpoint.

pub mod models;
pub mod pagination;
pub mod query;
pub mod text;
pub mod utils;

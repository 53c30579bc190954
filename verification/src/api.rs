//! Request planning, response resolution and the API's records.

pub mod clans;
pub mod common;
pub mod errors;
pub mod goldpass;
pub mod labels;
pub mod leagues;
pub mod locations;
pub mod players;
pub mod rest_manager;

//! The record of a label.

use crate::api::common::models::APIIcon;
use vstd::prelude::*;

verus! {

/// A label that players and clans describe themselves with.
#[derive(Debug, Clone, PartialEq, Eq)]
pub struct APILabel {
    pub id: i64,
    pub name: String,
    pub icon_urls: APIIcon,
}

} // verus!

//! Records of leagues and their seasons.

use crate::api::common::models::APIIcon;
use vstd::prelude::*;

verus! {

/// A league of the home village.
#[derive(Debug, Clone, PartialEq, Eq)]
pub struct APILeague {
    pub id: i64,
    pub name: String,
    pub icon_urls: APIIcon,
}

/// A league of the builder base.
#[derive(Debug, Clone, PartialEq, Eq)]
pub struct APIBuilderBaseLeague {
    pub id: i64,
    pub name: String,
}

/// A season of a league.
#[derive(Debug, Clone, PartialEq, Eq)]
pub struct APILeagueSeason {
    pub id: String,
}

/// A league of the clan war league.
#[derive(Debug, Clone, PartialEq, Eq)]
pub struct APIWarLeague {
    pub id: i64,
    pub name: String,
}

/// A league of the clan capital.
#[derive(Debug, Clone, PartialEq, Eq)]
pub struct APICapitalLeague {
    pub id: i64,
    pub name: String,
}

} // verus!

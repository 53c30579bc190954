//! Records of locations and of the rankings kept for them.

use crate::api::common::models::APIBadge;
use crate::api::leagues::models::{APIBuilderBaseLeague, APILeague};
use vstd::prelude::*;

verus! {

/// A country or a region.
#[derive(Debug, Clone, PartialEq, Eq)]
pub struct APILocation {
    pub id: i64,
    pub name: String,
    pub is_country: bool,
    pub country_code: Option<String>,
    /// Not sent by the API so far.
    pub localized_name: Option<String>,
}

/// A player in the ranking of a location or a league season.
#[derive(Debug, Clone, PartialEq, Eq)]
pub struct APIPlayerRanking {
    pub tag: String,
    pub name: String,
    pub exp_level: i64,
    pub trophies: i64,
    pub attack_wins: i64,
    pub defense_wins: i64,
    pub rank: i64,
    pub previous_rank: i64,
    pub clan: Option<APIPlayerRankingClan>,
    pub league: APILeague,
}

/// The clan of a ranked player.
#[derive(Debug, Clone, PartialEq, Eq)]
pub struct APIPlayerRankingClan {
    pub tag: String,
    pub name: String,
    pub badge_urls: APIBadge,
}

/// A clan in the ranking of a location.
#[derive(Debug, Clone, PartialEq, Eq)]
pub struct APIClanRanking {
    pub tag: String,
    pub name: String,
    pub location: APILocation,
    pub badge_urls: APIBadge,
    pub clan_level: i64,
    pub members: i64,
    pub clan_points: i64,
    pub rank: i64,
    pub previous_rank: i64,
}

/// A player in the builder base ranking of a location.
#[derive(Debug, Clone, PartialEq, Eq)]
pub struct APIPlayerBuilderBaseRanking {
    pub tag: String,
    pub name: String,
    pub exp_level: i64,
    pub rank: i64,
    pub previous_rank: i64,
    pub builder_base_trophies: i64,
    pub builder_base_league: APIBuilderBaseLeague,
    pub clan: Option<APIPlayerRankingClan>,
}

/// A clan in the builder base ranking of a location.
#[derive(Debug, Clone, PartialEq, Eq)]
pub struct APIClanBuilderBaseRanking {
    pub tag: String,
    pub name: String,
    pub location: APILocation,
    pub badge_urls: APIBadge,
    pub clan_level: i64,
    pub members: i64,
    pub rank: i64,
    pub previous_rank: i64,
    pub clan_builder_base_points: i64,
}

/// A clan in the capital ranking of a location.
#[derive(Debug, Clone, PartialEq, Eq)]
pub struct APIClanCapitalRanking {
    pub tag: String,
    pub name: String,
    pub location: APILocation,
    pub badge_urls: APIBadge,
    pub clan_level: i64,
    pub members: i64,
    pub rank: i64,
    pub previous_rank: i64,
    pub clan_capital_points: i64,
}

} // verus!

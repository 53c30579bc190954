//! Records of players and of token verification.

use crate::api::clans::models::APIClanMemberRole;
use crate::api::common::models::APIBadge;
use crate::api::labels::models::APILabel;
use crate::api::leagues::models::{APIBuilderBaseLeague, APILeague};
use vstd::prelude::*;

verus! {

/// The body of a token verification request.
#[derive(Debug)]
pub struct APIVerifyTokenRequest {
    pub token: String,
}

/// The API's answer to a token verification.
#[derive(Debug)]
pub struct APIVerifyTokenResponse {
    pub tag: String,
    pub token: String,
    pub status: String,
}

/// A player, as the API describes them.
#[derive(Debug, Clone, PartialEq, Eq)]
pub struct APIPlayer {
    pub tag: String,
    pub name: String,
    pub town_hall_level: i64,
    pub town_hall_weapon_level: i64,
    pub exp_level: i64,
    pub trophies: i64,
    pub best_trophies: i64,
    pub war_stars: i64,
    pub attack_wins: i64,
    pub defense_wins: i64,
    pub builder_hall_level: i64,
    pub builder_base_trophies: i64,
    pub best_builder_base_trophies: i64,
    /// `None` for a player without a clan.
    pub role: Option<APIClanMemberRole>,
    /// `None` for a player without a clan.
    pub war_preference: Option<APIWarPreference>,
    pub donations: i64,
    pub donations_received: i64,
    pub clan_capital_contributions: i64,
    /// `None` for a player without a clan.
    pub clan: Option<APIPlayerClan>,
    pub league: APILeague,
    pub builder_base_league: APIBuilderBaseLeague,
    /// `None` for a player who never was in the legend league.
    pub legend_statistics: Option<APIPlayerLegendStatistics>,
    pub achievements: Vec<APIPlayerAchievementProgress>,
    /// `None` while the player keeps the default house.
    pub player_house: Option<APIPlayerHouse>,
    pub labels: Vec<APILabel>,
    pub troops: Vec<APIPlayerItemLevel>,
    pub heroes: Vec<APIPlayerItemLevel>,
    pub hero_equipment: Vec<APIPlayerItemLevel>,
    pub spells: Vec<APIPlayerItemLevel>,
}

/// Whether a player wants to go to war.
#[derive(Debug, Clone, PartialEq, Eq)]
pub enum APIWarPreference {
    Out,
    In,
}

/// The clan of a player.
#[derive(Debug, Clone, PartialEq, Eq)]
pub struct APIPlayerClan {
    pub tag: String,
    pub name: String,
    pub clan_level: i64,
    pub badge_urls: APIBadge,
}

/// A player's record in the legend league.
#[derive(Debug, Clone, PartialEq, Eq)]
pub struct APIPlayerLegendStatistics {
    pub legend_trophies: i64,
    pub previous_season: Option<APILegendLeagueTournamentSeasonResult>,
    pub best_season: Option<APILegendLeagueTournamentSeasonResult>,
    pub previous_builder_base_season: Option<APILegendLeagueTournamentSeasonResult>,
    pub best_builder_base_season: Option<APILegendLeagueTournamentSeasonResult>,
    pub current_season: Option<APILegendLeagueTournamentSeasonResult>,
}

/// A player's result in one legend league season.
#[derive(Debug, Clone, PartialEq, Eq)]
pub struct APILegendLeagueTournamentSeasonResult {
    pub id: String,
    pub rank: i64,
    pub trophies: i64,
}

/// How far a player has come with an achievement.
#[derive(Debug, Clone, PartialEq, Eq)]
pub struct APIPlayerAchievementProgress {
    pub name: String,
    pub stars: i64,
    pub value: i64,
    pub target: i64,
    pub info: String,
    /// `None` for an achievement that tracks no statistics.
    pub completion_info: Option<String>,
    pub village: APIVillageType,
}

/// A player's house in the clan capital.
#[derive(Debug, Clone, PartialEq, Eq)]
pub struct APIPlayerHouse {
    pub elements: Vec<APIPlayerHouseElement>,
}

/// One element of a player house.
#[derive(Debug, Clone, PartialEq, Eq)]
pub struct APIPlayerHouseElement {
    pub kind: APIHouseElement,
    pub id: i64,
}

/// The part of a player house that an element is.
#[derive(Debug, Clone, PartialEq, Eq)]
pub enum APIHouseElement {
    Ground,
    Walls,
    Roof,
    Decoration,
}

/// A troop, hero, spell or piece of equipment and its level.
#[derive(Debug, PartialEq, Eq)]
pub struct APIPlayerItemLevel {
    pub name: String,
    pub level: i64,
    pub max_level: i64,
    pub village: APIVillageType,
    /// `None` unless the item is an active super troop.
    pub super_troop_is_active: Option<bool>,
    /// Only heroes hold equipment.
    pub equipment: Option<Vec<APIPlayerItemLevel>>,
}

/// The village that an item belongs to.
#[derive(Debug, Clone, Copy, PartialEq, Eq)]
pub enum APIVillageType {
    HomeVillage,
    BuilderBase,
    ClanCapital,
}

impl Clone for APIPlayerItemLevel {
    /// A copy of the item, its equipment included.
    fn clone(&self) -> (copy: Self)
        ensures
            copy.same_level(*self),
    {
        copy_item(self)
    }
}

impl APIPlayerItemLevel {
    /// Whether two items agree in all but the equipment they hold, and
    /// both hold equipment or neither does.
    pub open spec fn same_level(self, other: APIPlayerItemLevel) -> bool {
        &&& self.name@ == other.name@
        &&& self.level == other.level
        &&& self.max_level == other.max_level
        &&& self.village == other.village
        &&& self.super_troop_is_active == other.super_troop_is_active
        &&& self.equipment is Some == other.equipment is Some
    }
}

/// A copy of an item, its equipment included.
fn copy_item(item: &APIPlayerItemLevel) -> (copy: APIPlayerItemLevel)
    ensures
        copy.same_level(*item),
        item.equipment matches Some(list) ==> same_levels(copy.equipment->0@, list@),
    decreases *item,
{
    let equipment = match &item.equipment {
        Some(list) => Some(copy_items(list)),
        None => None,
    };
    APIPlayerItemLevel {
        name: item.name.clone(),
        level: item.level,
        max_level: item.max_level,
        village: item.village,
        super_troop_is_active: item.super_troop_is_active,
        equipment,
    }
}

/// Whether two lists hold as many items, each like the one at its place in
/// the other list.
pub open spec fn same_levels(copies: Seq<APIPlayerItemLevel>, items: Seq<APIPlayerItemLevel>) -> bool {
    &&& copies.len() == items.len()
    &&& forall|i: int| 0 <= i < items.len() ==> (#[trigger] copies[i]).same_level(items[i])
}

/// A copy of a list of items.
fn copy_items(items: &Vec<APIPlayerItemLevel>) -> (copies: Vec<APIPlayerItemLevel>)
    ensures
        same_levels(copies@, items@),
    decreases *items,
{
    let mut copies: Vec<APIPlayerItemLevel> = Vec::new();
    let mut i: usize = 0;
    while i < items.len()
        invariant
            i <= items.len(),
            same_levels(copies@, items@.take(i as int)),
        decreases items.len() - i,
    {
        copies.push(copy_item(&items[i]));
        i = i + 1;
    }
    copies
}

} // verus!

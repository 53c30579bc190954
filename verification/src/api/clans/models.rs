//! Records of clans, their wars, war leagues and capital raids.

use crate::api::common::models::APIBadge;
use crate::api::labels::models::APILabel;
use crate::api::leagues::models::{APIBuilderBaseLeague, APICapitalLeague, APILeague, APIWarLeague};
use crate::api::locations::models::APILocation;
use crate::api::players::models::APIPlayerHouse;
use rust_decimal::Decimal;
use vstd::prelude::*;

verus! {

/// The decimal number type of `rust_decimal`, carried through unread.
#[verifier::external_type_specification]
#[verifier::external_body]
pub struct ExDecimal(Decimal);

/// `Decimal`'s `clone`: the same number.
pub assume_specification[ <Decimal as Clone>::clone ](number: &Decimal) -> (copy: Decimal)
    ensures
        copy == *number,
;

/// A clan, as the API describes it.
#[derive(Debug, Clone, PartialEq, Eq)]
pub struct APIClan {
    pub tag: String,
    pub name: String,
    pub kind: APIClanType,
    pub description: Option<String>,
    pub location: Option<APILocation>,
    pub is_family_friendly: bool,
    pub badge_urls: APIBadge,
    pub clan_level: i64,
    pub clan_points: i64,
    pub clan_builder_base_points: i64,
    pub clan_capital_points: i64,
    pub capital_league: APICapitalLeague,
    pub required_trophies: i64,
    pub war_frequency: APIWarFrequency,
    pub war_win_streak: i64,
    pub war_wins: i64,
    pub war_ties: Option<i64>,
    pub war_losses: Option<i64>,
    pub is_war_log_public: bool,
    pub war_league: APIWarLeague,
    pub members: i64,
    pub member_list: Option<Vec<APIClanMember>>,
    pub labels: Vec<APILabel>,
    pub required_builder_base_trophies: i64,
    pub required_townhall_level: i64,
    pub clan_capital: Option<APIClanCapital>,
    pub chat_language: Option<APILanguage>,
}

/// Who may join a clan.
#[derive(Debug, Clone, PartialEq, Eq)]
pub enum APIClanType {
    Open,
    InviteOnly,
    Closed,
}

/// How often a clan goes to war.
#[derive(Debug, Clone, PartialEq, Eq)]
pub enum APIWarFrequency {
    Unknown,
    Never,
    LessThanOncePerWeek,
    OncePerWeek,
    MoreThanOncePerWeek,
    Always,
    /// Only used in search.
    Any,
}

impl APIWarFrequency {
    /// The name that the API uses for the value.
    pub open spec fn wire_name_text(&self) -> Seq<char> {
        match self {
            APIWarFrequency::Unknown => "unknown"@,
            APIWarFrequency::Never => "never"@,
            APIWarFrequency::LessThanOncePerWeek => "lessThanOncePerWeek"@,
            APIWarFrequency::OncePerWeek => "oncePerWeek"@,
            APIWarFrequency::MoreThanOncePerWeek => "moreThanOncePerWeek"@,
            APIWarFrequency::Always => "always"@,
            APIWarFrequency::Any => "any"@,
        }
    }

    /// The name that the API uses for the value.
    pub fn wire_name(&self) -> (name: &'static str)
        ensures
            name@ == self.wire_name_text(),
    {
        match self {
            APIWarFrequency::Unknown => "unknown",
            APIWarFrequency::Never => "never",
            APIWarFrequency::LessThanOncePerWeek => "lessThanOncePerWeek",
            APIWarFrequency::OncePerWeek => "oncePerWeek",
            APIWarFrequency::MoreThanOncePerWeek => "moreThanOncePerWeek",
            APIWarFrequency::Always => "always",
            APIWarFrequency::Any => "any",
        }
    }
}

/// A member of a clan.
#[derive(Debug, Clone, PartialEq, Eq)]
pub struct APIClanMember {
    pub tag: String,
    pub name: String,
    pub role: APIClanMemberRole,
    pub town_hall_level: i64,
    pub exp_level: i64,
    pub league: APILeague,
    pub trophies: i64,
    pub builder_base_trophies: i64,
    pub clan_rank: i64,
    pub previous_clan_rank: i64,
    pub donations: i64,
    pub donations_received: i64,
    /// `None` while the player keeps the default house.
    pub player_house: Option<APIPlayerHouse>,
    pub builder_base_league: APIBuilderBaseLeague,
}

/// A player's role in their clan.
#[derive(Debug, Clone, PartialEq, Eq)]
pub enum APIClanMemberRole {
    NotMember,
    Member,
    Admin,
    CoLeader,
    Leader,
}

/// The capital of a clan and its districts.
#[derive(Debug, Clone, PartialEq, Eq)]
pub struct APIClanCapital {
    pub capital_hall_level: i64,
    pub districts: Vec<APIClanDistrictData>,
}

/// One district of a clan capital.
#[derive(Debug, Clone, PartialEq, Eq)]
pub struct APIClanDistrictData {
    pub id: i64,
    pub name: String,
    pub district_hall_level: i64,
}

/// The language that a clan chats in.
#[derive(Debug, Clone, PartialEq, Eq)]
pub struct APILanguage {
    pub id: i64,
    pub name: String,
    pub language_code: String,
}

/// A war between two clans, running or over.
#[derive(Debug, Clone, PartialEq, Eq)]
pub struct APIClanWar {
    pub state: APIWarState,
    pub team_size: Option<i64>,
    pub attacks_per_member: Option<i64>,
    pub battle_modifier: Option<APIBattleModifier>,
    pub preparation_start_time: Option<String>,
    pub start_time: Option<String>,
    pub end_time: Option<String>,
    pub clan: APIWarClan,
    pub opponent: APIWarClan,
}

/// How far a war has come.
#[derive(Debug, Clone, PartialEq, Eq)]
pub enum APIWarState {
    NotInWar,
    Preparation,
    InWar,
    WarEnded,
}

/// The rules that a war is fought under.
#[derive(Debug, Clone, PartialEq, Eq)]
pub enum APIBattleModifier {
    /// No modifier; `none` on the wire.
    Unmodified,
    HardMode,
}

/// One side of a war.
#[derive(Debug, Clone, PartialEq, Eq)]
pub struct APIWarClan {
    pub tag: Option<String>,
    pub name: Option<String>,
    pub badge_urls: APIBadge,
    pub clan_level: i64,
    pub attacks: Option<i64>,
    pub stars: i64,
    pub destruction_percentage: Decimal,
    pub members: Option<Vec<APIClanWarMember>>,
    pub exp_earned: Option<i64>,
}

/// A member on the map of a war.
#[derive(Debug, Clone, PartialEq, Eq)]
pub struct APIClanWarMember {
    pub tag: String,
    pub name: String,
    pub townhall_level: i64,
    pub map_position: i64,
    pub attacks: Option<Vec<APIClanWarAttack>>,
    pub opponent_attacks: i64,
    pub best_opponent_attack: Option<APIClanWarAttack>,
}

/// One attack in a war.
#[derive(Debug, Clone, PartialEq, Eq)]
pub struct APIClanWarAttack {
    pub attacker_tag: String,
    pub defender_tag: String,
    pub stars: i64,
    pub destruction_percentage: i64,
    pub order: i64,
    pub duration: i64,
}

/// One finished war in a clan's war log.
#[derive(Debug, Clone, PartialEq, Eq)]
pub struct APIClanWarLogEntry {
    pub result: Option<APIWarResult>,
    pub end_time: String,
    pub team_size: i64,
    pub attacks_per_member: i64,
    pub battle_modifier: APIBattleModifier,
    pub clan: APIWarClan,
    pub opponent: APIWarClan,
}

/// How a war ended for the clan.
#[derive(Debug, Clone, PartialEq, Eq)]
pub enum APIWarResult {
    Lose,
    Win,
    Tie,
}

/// A group of clans in the clan war league.
#[derive(Debug, Clone, PartialEq, Eq)]
pub struct APIClanWarLeagueGroup {
    pub state: APIClanWarLeagueState,
    pub season: String,
    pub clans: Vec<APIClanWarLeagueClan>,
    pub rounds: Vec<APIClanWarLeagueRound>,
}

/// How far a clan war league season has come.
#[derive(Debug, Clone, PartialEq, Eq)]
pub enum APIClanWarLeagueState {
    NotInWar,
    Preparation,
    InWar,
    Ended,
}

/// A clan in a clan war league group.
#[derive(Debug, Clone, PartialEq, Eq)]
pub struct APIClanWarLeagueClan {
    pub tag: String,
    pub name: String,
    pub clan_level: i64,
    pub badge_urls: APIBadge,
    pub members: Vec<APIClanWarLeagueClanMember>,
}

/// A member of a clan in a clan war league group.
#[derive(Debug, Clone, PartialEq, Eq)]
pub struct APIClanWarLeagueClanMember {
    pub tag: String,
    pub townhall_level: i64,
    pub name: String,
}

/// The wars of one round of the clan war league.
#[derive(Debug, Clone, PartialEq, Eq)]
pub struct APIClanWarLeagueRound {
    pub war_tags: Vec<String>,
}

/// One raid weekend of a clan capital.
#[derive(Debug, Clone, PartialEq, Eq)]
pub struct APIClanCapitalRaidSeason {
    pub state: APIClanCapitalRaidSeasonState,
    pub start_time: String,
    pub end_time: String,
    pub capital_total_loot: i64,
    pub raids_completed: i64,
    pub total_attacks: i64,
    pub enemy_districts_destroyed: i64,
    pub offensive_reward: i64,
    pub defensive_reward: i64,
    pub members: Option<Vec<APIClanCapitalRaidSeasonMember>>,
    pub attack_log: Vec<APIClanCapitalRaidSeasonAttackLogEntry>,
    pub defense_log: Vec<APIClanCapitalRaidSeasonDefenseLogEntry>,
}

/// Whether a raid weekend is still running.
#[derive(Debug, Clone, PartialEq, Eq)]
pub enum APIClanCapitalRaidSeasonState {
    Ongoing,
    Ended,
}

/// What a member did in a raid weekend.
#[derive(Debug, Clone, PartialEq, Eq)]
pub struct APIClanCapitalRaidSeasonMember {
    pub tag: String,
    pub name: String,
    pub attacks: i64,
    pub attack_limit: i64,
    pub bonus_attack_limit: i64,
    pub capital_resources_looted: i64,
}

/// The raid on one defending clan.
#[derive(Debug, Clone, PartialEq, Eq)]
pub struct APIClanCapitalRaidSeasonAttackLogEntry {
    pub defender: APIClanCapitalRaidSeasonClanInfo,
    pub attack_count: i64,
    pub district_count: i64,
    pub districts_destroyed: i64,
    pub districts: Vec<APIClanCapitalRaidSeasonDistrict>,
}

/// The raid by one attacking clan.
#[derive(Debug, Clone, PartialEq, Eq)]
pub struct APIClanCapitalRaidSeasonDefenseLogEntry {
    pub attacker: APIClanCapitalRaidSeasonClanInfo,
    pub attack_count: i64,
    pub district_count: i64,
    pub districts_destroyed: i64,
    pub districts: Vec<APIClanCapitalRaidSeasonDistrict>,
}

/// The other clan of a raid.
#[derive(Debug, Clone, PartialEq, Eq)]
pub struct APIClanCapitalRaidSeasonClanInfo {
    pub tag: String,
    pub name: String,
    pub level: i64,
    pub badge_urls: APIBadge,
}

/// One district in a raid.
#[derive(Debug, Clone, PartialEq, Eq)]
pub struct APIClanCapitalRaidSeasonDistrict {
    pub id: i64,
    pub name: String,
    pub district_hall_level: i64,
    pub destruction_percent: i64,
    pub stars: i64,
    pub attack_count: i64,
    pub total_looted: i64,
    pub attacks: Option<Vec<APIClanCapitalRaidSeasonAttack>>,
}

/// One attack on a district.
#[derive(Debug, Clone, PartialEq, Eq)]
pub struct APIClanCapitalRaidSeasonAttack {
    pub attacker: APIClanCapitalRaidSeasonAttacker,
    pub destruction_percent: i64,
    pub stars: i64,
}

/// The player behind an attack on a district.
#[derive(Debug, Clone, PartialEq, Eq)]
pub struct APIClanCapitalRaidSeasonAttacker {
    pub tag: String,
    pub name: String,
}

} // verus!

//! The requests for clans.

use crate::api::clans::models::{
    APIClan, APIClanCapitalRaidSeason, APIClanMember, APIClanWar, APIClanWarLeagueGroup,
    APIClanWarLogEntry,
};
use crate::api::clans::search::ClanSearchOptions;
use crate::api::common::models::APIPagedResponse;
use crate::api::common::pagination::PaginationOptions;
use crate::api::rest_manager::{GetRequest, RestManager};
use crate::errors::TransportError;
use vstd::prelude::*;

verus! {

impl RestManager {
    /// Plans the search for clans.
    ///
    /// # Arguments
    /// * `search_options` - The filter parameters for searching clans.
    /// * `pagination_options` - The paging parameters for the request.
    ///
    /// The request carries the parameters of both: no filter has the name
    /// of a paging parameter.
    pub fn clans(
        &self,
        search_options: ClanSearchOptions,
        pagination_options: PaginationOptions,
    ) -> (request: GetRequest<APIPagedResponse<APIClan>>)
        ensures
            self.is_get(
                request,
                "clans"@,
                search_options.query().union_prefer_right(pagination_options.query()),
            ),
    {
        let mut parameters = search_options.to_query_parameters();
        parameters.extend(pagination_options.to_query_parameters());
        self.get("clans", Some(parameters))
    }

    /// Plans the request for a clan's information.
    ///
    /// # Arguments
    /// * `tag` - The tag of the clan.
    pub fn clan_info(&self, tag: &str) -> (result: Result<GetRequest<APIClan>, TransportError>)
        ensures
            self.is_tagged_get(result, tag@, "clans/"@, ""@, Map::empty()),
    {
        self.get_tagged(tag, "clans/", "", None)
    }

    /// Plans the request for the list of a clan's members.
    ///
    /// # Arguments
    /// * `tag` - The tag of the clan.
    /// * `pagination_options` - Paging request parameters for pagination.
    pub fn clan_members(&self, tag: &str, pagination_options: PaginationOptions) -> (result:
        Result<GetRequest<APIPagedResponse<APIClanMember>>, TransportError>)
        ensures
            self.is_tagged_get(result, tag@, "clans/"@, "/members"@, pagination_options.query()),
    {
        self.get_tagged(tag, "clans/", "/members", Some(pagination_options.to_query_parameters()))
    }

    /// Plans the request for a clan's war log.
    ///
    /// # Arguments
    /// * `tag` - The tag of the clan.
    /// * `pagination_options` - Paging request parameters for pagination.
    pub fn war_log(&self, tag: &str, pagination_options: PaginationOptions) -> (result: Result<
        GetRequest<APIPagedResponse<APIClanWarLogEntry>>,
        TransportError,
    >)
        ensures
            self.is_tagged_get(result, tag@, "clans/"@, "/warlog"@, pagination_options.query()),
    {
        self.get_tagged(tag, "clans/", "/warlog", Some(pagination_options.to_query_parameters()))
    }

    /// Plans the request for a clan's current war.
    ///
    /// # Arguments
    /// * `tag` - The tag of the clan.
    pub fn current_war(&self, tag: &str) -> (result: Result<
        GetRequest<APIClanWar>,
        TransportError,
    >)
        ensures
            self.is_tagged_get(result, tag@, "clans/"@, "/currentwar"@, Map::empty()),
    {
        self.get_tagged(tag, "clans/", "/currentwar", None)
    }

    /// Plans the request for a clan's current clan war league group.
    ///
    /// # Arguments
    /// * `tag` - The tag of the clan.
    pub fn clan_war_league_group(&self, tag: &str) -> (result: Result<
        GetRequest<APIClanWarLeagueGroup>,
        TransportError,
    >)
        ensures
            self.is_tagged_get(result, tag@, "clans/"@, "/currentwar/leaguegroup"@, Map::empty()),
    {
        self.get_tagged(tag, "clans/", "/currentwar/leaguegroup", None)
    }

    /// Plans the request for one war of the current clan war league.
    ///
    /// # Arguments
    /// * `war_tag` - The tag of the war in current clan war league.
    pub fn clan_war_league_war(&self, war_tag: &str) -> (result: Result<
        GetRequest<APIClanWar>,
        TransportError,
    >)
        ensures
            self.is_tagged_get(result, war_tag@, "clanwarleagues/wars/"@, ""@, Map::empty()),
    {
        self.get_tagged(war_tag, "clanwarleagues/wars/", "", None)
    }

    /// Plans the request for a clan's capital raid seasons.
    ///
    /// # Arguments
    /// * `tag` - The tag of the clan.
    /// * `pagination_options` - Paging request parameters for pagination.
    pub fn clan_capital_raid_seasons(
        &self,
        tag: &str,
        pagination_options: PaginationOptions,
    ) -> (result: Result<GetRequest<APIPagedResponse<APIClanCapitalRaidSeason>>, TransportError>)
        ensures
            self.is_tagged_get(
                result,
                tag@,
                "clans/"@,
                "/capitalraidseasons"@,
                pagination_options.query(),
            ),
    {
        self.get_tagged(
            tag,
            "clans/",
            "/capitalraidseasons",
            Some(pagination_options.to_query_parameters()),
        )
    }
}

} // verus!

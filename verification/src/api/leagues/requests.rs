//! The requests for leagues.

use crate::api::common::models::APIPagedResponse;
use crate::api::common::pagination::PaginationOptions;
use crate::api::leagues::models::{
    APIBuilderBaseLeague, APICapitalLeague, APILeague, APILeagueSeason, APIWarLeague,
};
use crate::api::locations::models::APIPlayerRanking;
use crate::api::rest_manager::{path_of, GetRequest, RestManager};
use vstd::prelude::*;

verus! {

impl RestManager {
    /// Plans the request for the list of leagues.
    ///
    /// # Arguments
    /// * `pagination_options` - Optional parameters for pagination.
    pub fn leagues(
        &self,
        pagination_options: PaginationOptions,
    ) -> (request: GetRequest<APIPagedResponse<APILeague>>)
        ensures
            self.is_get(request, "leagues/"@, pagination_options.query()),
    {
        self.get("leagues/", Some(pagination_options.to_query_parameters()))
    }

    /// Plans the request for one league.
    ///
    /// # Arguments
    /// * `league_id` - The ID of the league.
    pub fn league_info(&self, league_id: &str) -> (request: GetRequest<APILeague>)
        ensures
            self.is_get(request, "leagues/"@ + league_id@, Map::empty()),
    {
        let path = "leagues/".to_owned().concat(league_id);
        self.get(path.as_str(), None)
    }

    /// Plans the request for the list of builder base leagues.
    ///
    /// # Arguments
    /// * `pagination_options` - Optional parameters for pagination.
    pub fn builder_base_leagues(
        &self,
        pagination_options: PaginationOptions,
    ) -> (request: GetRequest<APIPagedResponse<APIBuilderBaseLeague>>)
        ensures
            self.is_get(request, "builderbaseleagues/"@, pagination_options.query()),
    {
        self.get("builderbaseleagues/", Some(pagination_options.to_query_parameters()))
    }

    /// Plans the request for one builder base league.
    ///
    /// # Arguments
    /// * `league_id` - The ID of the league.
    pub fn builder_base_league_info(
        &self,
        league_id: &str,
    ) -> (request: GetRequest<APIBuilderBaseLeague>)
        ensures
            self.is_get(request, "builderbaseleagues/"@ + league_id@, Map::empty()),
    {
        let path = "builderbaseleagues/".to_owned().concat(league_id);
        self.get(path.as_str(), None)
    }

    /// Plans the request for the seasons of a league.
    ///
    /// # Arguments
    /// * `league_id` - The ID of the league.
    /// * `pagination_options` - Optional parameters for pagination.
    pub fn league_seasons(
        &self,
        league_id: &str,
        pagination_options: PaginationOptions,
    ) -> (request: GetRequest<APIPagedResponse<APILeagueSeason>>)
        ensures
            self.is_get(
                request,
                "leagues/"@ + league_id@ + "/seasons"@,
                pagination_options.query(),
            ),
    {
        let path = path_of("leagues/", league_id, "/seasons");
        self.get(path.as_str(), Some(pagination_options.to_query_parameters()))
    }

    /// Plans the request for the player rankings of a league in a season.
    ///
    /// # Arguments
    /// * `league_id` - The ID of the league.
    /// * `season_id` - The ID of the season.
    /// * `pagination_options` - Optional parameters for pagination.
    pub fn league_season_rankings(
        &self,
        league_id: &str,
        season_id: &str,
        pagination_options: PaginationOptions,
    ) -> (request: GetRequest<APIPagedResponse<APIPlayerRanking>>)
        ensures
            self.is_get(
                request,
                "leagues/"@ + league_id@ + "/seasons/"@ + season_id@,
                pagination_options.query(),
            ),
    {
        let head = path_of("leagues/", league_id, "/seasons/");
        let path = head.concat(season_id);
        self.get(path.as_str(), Some(pagination_options.to_query_parameters()))
    }

    /// Plans the request for the list of war leagues.
    ///
    /// # Arguments
    /// * `pagination_options` - Optional parameters for pagination.
    pub fn war_leagues(
        &self,
        pagination_options: PaginationOptions,
    ) -> (request: GetRequest<APIPagedResponse<APIWarLeague>>)
        ensures
            self.is_get(request, "warleagues/"@, pagination_options.query()),
    {
        self.get("warleagues/", Some(pagination_options.to_query_parameters()))
    }

    /// Plans the request for one war league.
    ///
    /// # Arguments
    /// * `league_id` - The ID of the league.
    pub fn war_league_info(&self, league_id: &str) -> (request: GetRequest<APIWarLeague>)
        ensures
            self.is_get(request, "warleagues/"@ + league_id@, Map::empty()),
    {
        let path = "warleagues/".to_owned().concat(league_id);
        self.get(path.as_str(), None)
    }

    /// Plans the request for the list of capital leagues.
    ///
    /// # Arguments
    /// * `pagination_options` - Optional parameters for pagination.
    pub fn capital_leagues(
        &self,
        pagination_options: PaginationOptions,
    ) -> (request: GetRequest<APIPagedResponse<APICapitalLeague>>)
        ensures
            self.is_get(request, "capitalleagues/"@, pagination_options.query()),
    {
        self.get("capitalleagues/", Some(pagination_options.to_query_parameters()))
    }

    /// Plans the request for one capital league.
    ///
    /// # Arguments
    /// * `league_id` - The ID of the league.
    pub fn capital_league_info(&self, league_id: &str) -> (request: GetRequest<APICapitalLeague>)
        ensures
            self.is_get(request, "capitalleagues/"@ + league_id@, Map::empty()),
    {
        let path = "capitalleagues/".to_owned().concat(league_id);
        self.get(path.as_str(), None)
    }
}

} // verus!

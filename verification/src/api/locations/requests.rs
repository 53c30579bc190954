//! The requests for locations and their rankings.

use crate::api::common::models::APIPagedResponse;
use crate::api::common::pagination::PaginationOptions;
use crate::api::locations::models::{
    APIClanBuilderBaseRanking, APIClanCapitalRanking, APIClanRanking, APILocation,
    APIPlayerBuilderBaseRanking, APIPlayerRanking,
};
use crate::api::rest_manager::{path_of, GetRequest, RestManager};
use vstd::prelude::*;

verus! {

impl RestManager {
    /// Plans the request for the list of locations.
    ///
    /// # Arguments
    /// * `pagination_options` - The paging parameters for the request.
    pub fn locations(
        &self,
        pagination_options: PaginationOptions,
    ) -> (request: GetRequest<APIPagedResponse<APILocation>>)
        ensures
            self.is_get(request, "locations/"@, pagination_options.query()),
    {
        self.get("locations/", Some(pagination_options.to_query_parameters()))
    }

    /// Plans the request for one location.
    ///
    /// # Arguments
    /// * `location_id` - The ID of the location.
    pub fn location_info(&self, location_id: &str) -> (request: GetRequest<APILocation>)
        ensures
            self.is_get(request, "locations/"@ + location_id@, Map::empty()),
    {
        let path = "locations/".to_owned().concat(location_id);
        self.get(path.as_str(), None)
    }

    /// Plans the request for the player rankings of a location.
    ///
    /// # Arguments
    /// * `location_id` - The ID of the location.
    /// * `pagination_options` - The paging parameters for the request.
    pub fn players_rankings(
        &self,
        location_id: &str,
        pagination_options: PaginationOptions,
    ) -> (request: GetRequest<APIPagedResponse<APIPlayerRanking>>)
        ensures
            self.is_get(
                request,
                "locations/"@ + location_id@ + "/rankings/players"@,
                pagination_options.query(),
            ),
    {
        let path = path_of("locations/", location_id, "/rankings/players");
        self.get(path.as_str(), Some(pagination_options.to_query_parameters()))
    }

    /// Plans the request for the clan rankings of a location.
    ///
    /// # Arguments
    /// * `location_id` - The ID of the location.
    /// * `pagination_options` - The paging parameters for the request.
    pub fn clans_rankings(
        &self,
        location_id: &str,
        pagination_options: PaginationOptions,
    ) -> (request: GetRequest<APIPagedResponse<APIClanRanking>>)
        ensures
            self.is_get(
                request,
                "locations/"@ + location_id@ + "/rankings/clans"@,
                pagination_options.query(),
            ),
    {
        let path = path_of("locations/", location_id, "/rankings/clans");
        self.get(path.as_str(), Some(pagination_options.to_query_parameters()))
    }

    /// Plans the request for the player builder base rankings of a location.
    ///
    /// # Arguments
    /// * `location_id` - The ID of the location.
    /// * `pagination_options` - The paging parameters for the request.
    pub fn players_builder_base_rankings(
        &self,
        location_id: &str,
        pagination_options: PaginationOptions,
    ) -> (request: GetRequest<APIPagedResponse<APIPlayerBuilderBaseRanking>>)
        ensures
            self.is_get(
                request,
                "locations/"@ + location_id@ + "/rankings/players-builder-base"@,
                pagination_options.query(),
            ),
    {
        let path = path_of("locations/", location_id, "/rankings/players-builder-base");
        self.get(path.as_str(), Some(pagination_options.to_query_parameters()))
    }

    /// Plans the request for the clan builder base rankings of a location.
    ///
    /// # Arguments
    /// * `location_id` - The ID of the location.
    /// * `pagination_options` - The paging parameters for the request.
    pub fn clans_builder_base_rankings(
        &self,
        location_id: &str,
        pagination_options: PaginationOptions,
    ) -> (request: GetRequest<APIPagedResponse<APIClanBuilderBaseRanking>>)
        ensures
            self.is_get(
                request,
                "locations/"@ + location_id@ + "/rankings/clans-builder-base"@,
                pagination_options.query(),
            ),
    {
        let path = path_of("locations/", location_id, "/rankings/clans-builder-base");
        self.get(path.as_str(), Some(pagination_options.to_query_parameters()))
    }

    /// Plans the request for the clan capital rankings of a location.
    ///
    /// # Arguments
    /// * `location_id` - The ID of the location.
    /// * `pagination_options` - The paging parameters for the request.
    pub fn capitals_rankings(
        &self,
        location_id: &str,
        pagination_options: PaginationOptions,
    ) -> (request: GetRequest<APIPagedResponse<APIClanCapitalRanking>>)
        ensures
            self.is_get(
                request,
                "locations/"@ + location_id@ + "/rankings/capitals"@,
                pagination_options.query(),
            ),
    {
        let path = path_of("locations/", location_id, "/rankings/capitals");
        self.get(path.as_str(), Some(pagination_options.to_query_parameters()))
    }
}

} // verus!

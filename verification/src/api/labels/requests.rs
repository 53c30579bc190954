//! The requests for labels.

use crate::api::common::models::APIPagedResponse;
use crate::api::common::pagination::PaginationOptions;
use crate::api::labels::models::APILabel;
use crate::api::rest_manager::{GetRequest, RestManager};
use vstd::prelude::*;

verus! {

impl RestManager {
    /// Plans the request for the list of player labels.
    ///
    /// # Arguments
    /// * `pagination_options` - Optional parameters for pagination.
    pub fn player_labels(&self, pagination_options: PaginationOptions) -> (request: GetRequest<
        APIPagedResponse<APILabel>,
    >)
        ensures
            self.is_get(request, "labels/players"@, pagination_options.query()),
    {
        self.get("labels/players", Some(pagination_options.to_query_parameters()))
    }

    /// Plans the request for the list of clan labels.
    ///
    /// # Arguments
    /// * `pagination_options` - Optional parameters for pagination.
    pub fn clan_labels(&self, pagination_options: PaginationOptions) -> (request: GetRequest<
        APIPagedResponse<APILabel>,
    >)
        ensures
            self.is_get(request, "labels/clans"@, pagination_options.query()),
    {
        self.get("labels/clans", Some(pagination_options.to_query_parameters()))
    }
}

} // verus!

//! The request for the Gold Pass.

use crate::api::goldpass::models::APIGoldPassSeason;
use crate::api::rest_manager::{GetRequest, RestManager};
use vstd::prelude::*;

verus! {

impl RestManager {
    /// Plans the request for the current Gold Pass season.
    pub fn goldpass(&self) -> (request: GetRequest<APIGoldPassSeason>)
        ensures
            self.is_get(request, "goldpass/seasons/current"@, Map::empty()),
    {
        self.get("goldpass/seasons/current", None)
    }
}

} // verus!

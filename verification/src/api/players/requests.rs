//! The requests for players.

use crate::api::players::models::{APIPlayer, APIVerifyTokenRequest, APIVerifyTokenResponse};
use crate::api::rest_manager::{GetRequest, PostRequest, RestManager};
use crate::errors::TransportError;
use vstd::prelude::*;

verus! {

impl APIVerifyTokenResponse {
    /// Whether the API confirmed the token: its status is `ok`.
    pub fn is_ok(&self) -> (confirmed: bool)
        ensures
            confirmed == (self.status@ == "ok"@),
    {
        self.status.as_str().eq("ok")
    }
}

impl RestManager {
    /// Plans the request for a player's information.
    ///
    /// # Arguments
    /// * `tag` - The tag of the player, which should be a valid Clash of Clans player tag.
    pub fn player(&self, tag: &str) -> (result: Result<GetRequest<APIPlayer>, TransportError>)
        ensures
            self.is_tagged_get(result, tag@, "players/"@, ""@, Map::empty()),
    {
        self.get_tagged(tag, "players/", "", None)
    }

    /// Plans the request that verifies a token for a player.
    ///
    /// # Arguments
    /// * `tag` - The tag of the player, which should be a valid Clash of Clans player tag.
    /// * `token` - The token to verify, which should be a string.
    ///
    /// The response says whether the token is the player's: see
    /// [`APIVerifyTokenResponse::is_ok`].
    pub fn verify(&self, tag: &str, token: &str) -> (result: Result<
        PostRequest<APIVerifyTokenRequest, APIVerifyTokenResponse>,
        TransportError,
    >)
        ensures
            self.is_tagged_post(result, tag@, "players/"@, "/verifytoken"@),
            result matches Ok(request) ==> request.json.token@ == token@,
    {
        let request = APIVerifyTokenRequest { token: token.to_owned() };
        self.post_tagged(tag, "players/", "/verifytoken", request)
    }
}

} // verus!

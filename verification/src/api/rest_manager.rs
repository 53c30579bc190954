//! The transport client: configuration, request plans and the resolution of
//! responses.
//!
//! A [`RestManager`] is made once from a bearer token and a configuration
//! and never changes. It plans requests as plain values and resolves what
//! came back for them; sending a plan is left to the caller.

use crate::api::common::query::QueryParameters;
use crate::api::common::utils::{
    encoded_tag, invalid_tag_message, normalize_tag, tag_body, valid_tag_body,
};
use crate::api::errors::{
    decoded_body, fields_of, resolved_message, resolved_reason, ApiError,
};
use crate::errors::TransportError;
use std::marker::PhantomData;
use vstd::prelude::*;
use vstd::string::*;

verus! {

/// How a client reaches the API.
#[derive(Debug, Clone)]
pub struct RestManagerConfig {
    /// The time allowed for a whole request and its response, in seconds.
    pub timeout: u64,
    pub base_url: String,
    pub user_agent: String,
}

impl RestManagerConfig {
    /// Whether this is the default configuration: thirty seconds, the
    /// production API and this library's user agent.
    pub open spec fn is_default(&self) -> bool {
        &&& self.timeout == 30
        &&& self.base_url@ == "https://api.clashofclans.com/v1"@
        &&& self.user_agent@ == "clash-forge/0.1.0"@
    }

    /// A configuration with a timeout in seconds, the URL that every path
    /// is put below, and the user agent to send.
    pub fn new(timeout: u64, base_url: &str, user_agent: &str) -> (config: Self)
        ensures
            config.timeout == timeout,
            config.base_url@ == base_url@,
            config.user_agent@ == user_agent@,
    {
        Self { timeout, base_url: base_url.to_owned(), user_agent: user_agent.to_owned() }
    }
}

impl Default for RestManagerConfig {
    /// Thirty seconds, the production API and this library's user agent.
    fn default() -> (config: Self)
        ensures
            config.is_default(),
    {
        Self {
            timeout: 30,
            base_url: "https://api.clashofclans.com/v1".to_owned(),
            user_agent: "clash-forge/0.1.0".to_owned(),
        }
    }
}

/// A character that a header value can hold: anything but a control
/// character, and the tab.
pub open spec fn is_header_char(c: char) -> bool {
    (c as u32) >= 32 && (c as u32) != 127 || c == '\t'
}

/// Text that can stand as a header value.
pub open spec fn is_header_value(text: Seq<char>) -> bool {
    forall|i: int| 0 <= i < text.len() ==> is_header_char(#[trigger] text[i])
}

/// The value of the `Authorization` header for a token.
pub open spec fn bearer(token: Seq<char>) -> Seq<char> {
    "Bearer "@ + token
}

/// A status code in the success range.
pub open spec fn is_success_status(status_code: u16) -> bool {
    200 <= status_code < 300
}

/// `reqwest::header::HeaderValue::from_str`: the text is accepted unless it
/// holds a byte below 32 other than the tab, or the byte 127. The bytes of a
/// character above 127 are all above 127, so this is a condition on the
/// characters.
#[verifier::external_body]
fn header_value_accepts(text: &str) -> (accepted: bool)
    ensures
        accepted == is_header_value(text@),
{
    reqwest::header::HeaderValue::from_str(text).is_ok()
}

/// A planned GET request, for a response that holds a `T`.
#[derive(Debug)]
pub struct GetRequest<T> {
    pub url: String,
    pub parameters: QueryParameters,
    pub expects: PhantomData<T>,
}

/// A planned POST request with a body to send as JSON, for a response that
/// holds a `T`.
#[derive(Debug)]
pub struct PostRequest<B, T> {
    pub url: String,
    pub json: B,
    pub expects: PhantomData<T>,
}

/// Three pieces of a path, one after the other.
pub fn path_of(prefix: &str, middle: &str, suffix: &str) -> (path: String)
    ensures
        path@ == prefix@ + middle@ + suffix@,
{
    prefix.to_owned().concat(middle).concat(suffix)
}

/// The mapping of optional query parameters: none where there are none.
pub open spec fn query_of(parameters: Option<QueryParameters>) -> Map<Seq<char>, Seq<char>> {
    match parameters {
        Some(p) => p@,
        None => Map::empty(),
    }
}

/// The client: a configuration and the credentials bound to it.
#[derive(Debug, Clone)]
pub struct RestManager {
    config: RestManagerConfig,
    authorization: String,
}

impl RestManager {
    /// The configuration that the client was made with.
    pub closed spec fn settings(&self) -> RestManagerConfig {
        self.config
    }

    /// The value of the `Authorization` header of every request.
    pub closed spec fn credentials(&self) -> Seq<char> {
        self.authorization@
    }

    /// The full URL for a path below the base URL.
    pub open spec fn endpoint(&self, path: Seq<char>) -> Seq<char> {
        self.settings().base_url@ + "/"@ + path
    }

    /// Whether `request` is the GET request for `path` with the parameters
    /// `query`.
    pub open spec fn is_get<T>(
        &self,
        request: GetRequest<T>,
        path: Seq<char>,
        query: Map<Seq<char>, Seq<char>>,
    ) -> bool {
        &&& request.url@ == self.endpoint(path)
        &&& request.parameters@ == query
    }

    /// Whether `result` is what a GET request under a tag comes to: the
    /// request for `prefix`, the normalized tag and `suffix` where the tag is
    /// valid, and the tag's error where it is not.
    pub open spec fn is_tagged_get<T>(
        &self,
        result: Result<GetRequest<T>, TransportError>,
        tag: Seq<char>,
        prefix: Seq<char>,
        suffix: Seq<char>,
        query: Map<Seq<char>, Seq<char>>,
    ) -> bool {
        match result {
            Ok(request) => valid_tag_body(tag_body(tag)) && self.is_get(
                request,
                prefix + encoded_tag(tag_body(tag)) + suffix,
                query,
            ),
            Err(TransportError::InvalidTag(message)) => !valid_tag_body(tag_body(tag)) && message@
                == invalid_tag_message(tag_body(tag), tag),
            Err(_) => false,
        }
    }

    /// A client with the default configuration.
    pub fn new(token: &str) -> (result: Result<Self, TransportError>)
        ensures
            match result {
                Ok(manager) => is_header_value(token@) && manager.credentials() == bearer(token@)
                    && manager.settings().is_default(),
                Err(error) => !is_header_value(token@) && error is InvalidToken,
            },
    {
        Self::with_config(token, RestManagerConfig::default())
    }

    /// A client for `token` and `config`.
    ///
    /// The token is bound into the `Authorization` header as `Bearer` and
    /// the token. A token that cannot stand in a header value, one with a
    /// control character other than the tab, is refused with `InvalidToken`.
    pub fn with_config(token: &str, config: RestManagerConfig) -> (result: Result<
        Self,
        TransportError,
    >)
        ensures
            match result {
                Ok(manager) => is_header_value(token@) && manager.credentials() == bearer(token@)
                    && manager.settings() == config,
                Err(error) => !is_header_value(token@) && error is InvalidToken,
            },
    {
        let authorization = "Bearer ".to_owned().concat(token);
        proof {
            reveal_strlit("Bearer ");
            let value = authorization@;
            if is_header_value(token@) {
                assert forall|i: int| 0 <= i < value.len() implies is_header_char(
                    #[trigger] value[i],
                ) by {
                    if i >= 7 {
                        assert(value[i] == token@[i - 7]);
                    }
                }
            }
            if is_header_value(value) {
                assert forall|i: int| 0 <= i < token@.len() implies is_header_char(
                    #[trigger] token@[i],
                ) by {
                    assert(token@[i] == value[i + 7]);
                }
            }
        }
        if !header_value_accepts(authorization.as_str()) {
            return Err(TransportError::InvalidToken);
        }
        Ok(RestManager { config, authorization })
    }

    /// The configuration that the client was made with.
    pub fn config(&self) -> (config: &RestManagerConfig)
        ensures
            *config == self.settings(),
    {
        &self.config
    }

    /// The headers that every request carries besides the configured user
    /// agent: `Authorization` with the bearer token, and `Accept` for JSON.
    pub fn default_headers(&self) -> (headers: Vec<(String, String)>)
        ensures
            headers@.len() == 2,
            headers@[0].0@ == "Authorization"@,
            headers@[0].1@ == self.credentials(),
            headers@[1].0@ == "Accept"@,
            headers@[1].1@ == "application/json"@,
    {
        let mut headers: Vec<(String, String)> = Vec::new();
        headers.push(("Authorization".to_owned(), self.authorization.clone()));
        headers.push(("Accept".to_owned(), "application/json".to_owned()));
        headers
    }

    /// Plans a GET request for `url`, a path below the base URL, with the
    /// given query parameters, or none.
    pub fn get<T>(&self, url: &str, parameters: Option<QueryParameters>) -> (request: GetRequest<
        T,
    >)
        ensures
            self.is_get(request, url@, query_of(parameters)),
    {
        let full = self.config.base_url.clone().concat("/").concat(url);
        let parameters = match parameters {
            Some(p) => p,
            None => QueryParameters::new(),
        };
        GetRequest { url: full, parameters, expects: PhantomData }
    }

    /// Plans a POST request for `url`, a path below the base URL, with
    /// `json` as its body.
    pub fn post<B, T>(&self, url: &str, json: B) -> (request: PostRequest<B, T>)
        ensures
            request.url@ == self.endpoint(url@),
            request.json == json,
    {
        let full = self.config.base_url.clone().concat("/").concat(url);
        PostRequest { url: full, json, expects: PhantomData }
    }

    /// Plans a GET request for the path made of `prefix`, the normalized
    /// form of `tag` and `suffix`.
    pub fn get_tagged<T>(
        &self,
        tag: &str,
        prefix: &str,
        suffix: &str,
        parameters: Option<QueryParameters>,
    ) -> (result: Result<GetRequest<T>, TransportError>)
        ensures
            self.is_tagged_get(result, tag@, prefix@, suffix@, query_of(parameters)),
    {
        match normalize_tag(tag) {
            Ok(normalized) => {
                let path = path_of(prefix, normalized.as_str(), suffix);
                Ok(self.get(path.as_str(), parameters))
            },
            Err(error) => Err(error),
        }
    }

    /// Whether `result` is what a POST request under a tag comes to: the
    /// request for `prefix`, the normalized tag and `suffix` where the tag is
    /// valid, and the tag's error where it is not.
    pub open spec fn is_tagged_post<B, T>(
        &self,
        result: Result<PostRequest<B, T>, TransportError>,
        tag: Seq<char>,
        prefix: Seq<char>,
        suffix: Seq<char>,
    ) -> bool {
        match result {
            Ok(request) => valid_tag_body(tag_body(tag)) && request.url@ == self.endpoint(
                prefix + encoded_tag(tag_body(tag)) + suffix,
            ),
            Err(TransportError::InvalidTag(message)) => !valid_tag_body(tag_body(tag)) && message@
                == invalid_tag_message(tag_body(tag), tag),
            Err(_) => false,
        }
    }

    /// Plans a POST request for the path made of `prefix`, the normalized
    /// form of `tag` and `suffix`, with `json` as its body.
    pub fn post_tagged<B, T>(&self, tag: &str, prefix: &str, suffix: &str, json: B) -> (result:
        Result<PostRequest<B, T>, TransportError>)
        ensures
            self.is_tagged_post(result, tag@, prefix@, suffix@),
            result matches Ok(request) ==> request.json == json,
    {
        match normalize_tag(tag) {
            Ok(normalized) => {
                let path = path_of(prefix, normalized.as_str(), suffix);
                Ok(self.post(path.as_str(), json))
            },
            Err(error) => Err(error),
        }
    }

    /// Whether a status code is in the success range, 200 to 299.
    pub fn is_success(status_code: u16) -> (success: bool)
        ensures
            success == is_success_status(status_code),
    {
        200 <= status_code && status_code < 300
    }

    /// Resolves a response.
    ///
    /// `body` is the body of the response and `decoded` the same body
    /// decoded as the record that the request expects. On a success status
    /// the record is returned, or the decoder's error as `Json`. On any
    /// other status the result is the `Api` error for the status code and
    /// the body, whatever `decoded` holds.
    pub fn get_data<T>(
        &self,
        status_code: u16,
        body: &[u8],
        decoded: Result<T, serde_json::Error>,
    ) -> (data: Result<T, TransportError>)
        ensures
            is_success_status(status_code) ==> match decoded {
                Ok(record) => data == Ok::<T, TransportError>(record),
                Err(error) => data == Err::<T, TransportError>(TransportError::Json(error)),
            },
            !is_success_status(status_code) ==> match data {
                Err(TransportError::Api(error)) => error.status_code == status_code
                    && error.reason@ == resolved_reason(status_code, fields_of(decoded_body(body@)))
                    && error.message@ == resolved_message(
                    status_code,
                    fields_of(decoded_body(body@)),
                ),
                _ => false,
            },
    {
        if Self::is_success(status_code) {
            match decoded {
                Ok(record) => Ok(record),
                Err(error) => Err(TransportError::Json(error)),
            }
        } else {
            Err(TransportError::Api(ApiError::from_response(status_code, body)))
        }
    }
}

} // verus!

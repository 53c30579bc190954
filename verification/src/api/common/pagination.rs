//! Paging through a list: how many items, and from which cursor.

use crate::api::common::query::{with_parameter, QueryParameters};
use crate::api::common::text::{decimal, text_of, u64_to_string};
use vstd::prelude::*;

verus! {

/// Which part of a list to return.
#[derive(Debug, Clone, PartialEq, Eq)]
pub struct PaginationOptions {
    pub limit: Option<u32>,
    pub after: Option<String>,
    pub before: Option<String>,
}

impl Default for PaginationOptions {
    /// Options with nothing set.
    fn default() -> (options: Self)
        ensures
            options == PaginationOptions::unset(),
    {
        PaginationOptions { limit: None, after: None, before: None }
    }
}

impl PaginationOptions {
    /// Options with nothing set.
    pub open spec fn unset() -> PaginationOptions {
        PaginationOptions { limit: None, after: None, before: None }
    }

    /// The decimal form of the limit, where there is one.
    pub open spec fn limit_text(&self) -> Option<Seq<char>> {
        match self.limit {
            Some(limit) => Some(decimal(limit as int)),
            None => None,
        }
    }

    /// The query parameters for these options: `limit`, `after` and
    /// `before`, each only where it is set.
    pub open spec fn query(&self) -> Map<Seq<char>, Seq<char>> {
        with_parameter(
            with_parameter(
                with_parameter(Map::empty(), "limit"@, self.limit_text()),
                "after"@,
                text_of(self.after),
            ),
            "before"@,
            text_of(self.before),
        )
    }

    /// Creates a `PaginationOptionsBuilder` to configure `PaginationOptions`.
    ///
    /// This is the same as `PaginationOptionsBuilder::new()`.
    pub fn builder() -> (builder: PaginationOptionsBuilder)
        ensures
            builder.options() == PaginationOptions::unset(),
    {
        PaginationOptionsBuilder::new()
    }

    /// The query parameters for these options. An option that is not set
    /// gives no parameter.
    pub fn to_query_parameters(self) -> (parameters: QueryParameters)
        ensures
            parameters@ == self.query(),
    {
        let mut parameters = QueryParameters::new();
        let limit = match self.limit {
            Some(limit) => Some(u64_to_string(limit as u64)),
            None => None,
        };
        parameters.insert_some("limit", limit);
        parameters.insert_some("after", self.after);
        parameters.insert_some("before", self.before);
        parameters
    }
}

/// A parameter is sent exactly where its option is set, with the option's
/// value, and nothing else is sent.
pub proof fn lemma_pagination_query(options: PaginationOptions)
    ensures
        options.query().dom().finite(),
        options.query().contains_key("limit"@) <==> options.limit is Some,
        options.query().contains_key("after"@) <==> options.after is Some,
        options.query().contains_key("before"@) <==> options.before is Some,
        options.limit matches Some(limit) ==> options.query()["limit"@] == decimal(limit as int),
        options.after matches Some(after) ==> options.query()["after"@] == after@,
        options.before matches Some(before) ==> options.query()["before"@] == before@,
        forall|name: Seq<char>| #[trigger]
            options.query().contains_key(name) ==> name == "limit"@ || name == "after"@ || name
                == "before"@,
{
    reveal_strlit("limit");
    reveal_strlit("after");
    reveal_strlit("before");
    assert("after"@[0] != "before"@[0]);
}

/// Builder for `PaginationOptions`.
#[derive(Debug, Clone, PartialEq, Eq)]
pub struct PaginationOptionsBuilder {
    limit: Option<u32>,
    after: Option<String>,
    before: Option<String>,
}

impl Default for PaginationOptionsBuilder {
    /// A builder with nothing set.
    fn default() -> (builder: Self)
        ensures
            builder.options() == PaginationOptions::unset(),
    {
        PaginationOptionsBuilder { limit: None, after: None, before: None }
    }
}

impl PaginationOptionsBuilder {
    /// The options that `build` would return now.
    pub closed spec fn options(&self) -> PaginationOptions {
        PaginationOptions { limit: self.limit, after: self.after, before: self.before }
    }

    /// Constructs a new `PaginationOptionsBuilder`.
    ///
    /// This is the same as `PaginationOptions::builder()`.
    pub fn new() -> (builder: Self)
        ensures
            builder.options() == PaginationOptions::unset(),
    {
        PaginationOptionsBuilder { limit: None, after: None, before: None }
    }

    /// Sets the limit for the number of items to return.
    pub fn limit(self, limit: u32) -> (builder: Self)
        ensures
            builder.options() == (PaginationOptions { limit: Some(limit), ..self.options() }),
    {
        PaginationOptionsBuilder { limit: Some(limit), after: self.after, before: self.before }
    }

    /// Sets the cursor to return items after a specific item.
    pub fn after(self, after: String) -> (builder: Self)
        ensures
            builder.options() == (PaginationOptions { after: Some(after), ..self.options() }),
    {
        PaginationOptionsBuilder { limit: self.limit, after: Some(after), before: self.before }
    }

    /// Sets the cursor to return items before a specific item.
    pub fn before(self, before: String) -> (builder: Self)
        ensures
            builder.options() == (PaginationOptions { before: Some(before), ..self.options() }),
    {
        PaginationOptionsBuilder { limit: self.limit, after: self.after, before: Some(before) }
    }

    /// Returns the `PaginationOptions` that uses `PaginationOptionsBuilder` configuration.
    pub fn build(self) -> (options: PaginationOptions)
        ensures
            options == self.options(),
    {
        PaginationOptions { limit: self.limit, after: self.after, before: self.before }
    }
}

} // verus!

//! Searching for clans: the filters and the query parameters they give.

use crate::api::clans::models::APIWarFrequency;
use crate::api::common::query::{with_parameter, QueryParameters};
use crate::api::common::text::{decimal, i64_to_string, join, joined, text_of, views};
use vstd::prelude::*;
use vstd::string::*;

verus! {

/// Represents search options for clans.
#[derive(Debug, Clone, PartialEq, Eq)]
pub struct ClanSearchOptions {
    pub name: Option<String>,
    pub war_frequency: Option<APIWarFrequency>,
    pub location_id: Option<i64>,
    pub min_members: Option<i64>,
    pub max_members: Option<i64>,
    pub min_clan_level: Option<i64>,
    pub label_ids: Option<Vec<String>>,
}

/// A character that a JSON string cannot hold as it is: a control
/// character, `"` or `\`.
pub open spec fn needs_escape(c: char) -> bool {
    (c as u32) < 0x20 || c == '"' || c == '\\'
}

/// Text that a JSON string holds as it is.
pub open spec fn is_plain(text: Seq<char>) -> bool {
    forall|i: int| 0 <= i < text.len() ==> !needs_escape(#[trigger] text[i])
}

/// Plain text as a JSON string: the text between two `"`.
pub open spec fn json_text(text: Seq<char>) -> Seq<char> {
    seq!['"'] + text + seq!['"']
}

/// `serde_json::to_string` on a `str`: the JSON string for the text. Text
/// without control characters, `"` and `\` stands in it unescaped, between
/// two `"`.
#[verifier::external_body]
fn json_string(text: &str) -> (json: String)
    requires
        is_plain(text@),
    ensures
        json@ == json_text(text@),
{
    serde_json::to_string(text).unwrap()
}

/// The decimal form of an optional number.
pub open spec fn decimal_of(number: Option<i64>) -> Option<Seq<char>> {
    match number {
        Some(n) => Some(decimal(n as int)),
        None => None,
    }
}

/// The decimal form of an optional number.
fn number_text(number: Option<i64>) -> (text: Option<String>)
    ensures
        text_of(text) == decimal_of(number),
{
    match number {
        Some(n) => Some(i64_to_string(n)),
        None => None,
    }
}

/// The name of a war frequency stands unescaped in a JSON string.
proof fn lemma_wire_name_is_plain(frequency: APIWarFrequency)
    ensures
        is_plain(frequency.wire_name_text()),
{
    reveal_strlit("unknown");
    reveal_strlit("never");
    reveal_strlit("lessThanOncePerWeek");
    reveal_strlit("oncePerWeek");
    reveal_strlit("moreThanOncePerWeek");
    reveal_strlit("always");
    reveal_strlit("any");
}

impl ClanSearchOptions {
    /// Options with nothing set.
    pub open spec fn unset() -> ClanSearchOptions {
        ClanSearchOptions {
            name: None,
            war_frequency: None,
            location_id: None,
            min_members: None,
            max_members: None,
            min_clan_level: None,
            label_ids: None,
        }
    }

    /// The war frequency as a JSON string, where one is set.
    pub open spec fn war_frequency_text(&self) -> Option<Seq<char>> {
        match self.war_frequency {
            Some(frequency) => Some(json_text(frequency.wire_name_text())),
            None => None,
        }
    }

    /// The label ids with a comma between each two, where they are set.
    pub open spec fn label_ids_text(&self) -> Option<Seq<char>> {
        match self.label_ids {
            Some(ids) => Some(joined(views(ids@), ","@)),
            None => None,
        }
    }

    /// The query parameters for these options, each only where it is set.
    pub open spec fn query(&self) -> Map<Seq<char>, Seq<char>> {
        let named = with_parameter(Map::empty(), "name"@, text_of(self.name));
        let frequency = with_parameter(named, "warFrequency"@, self.war_frequency_text());
        let located = with_parameter(frequency, "locationId"@, decimal_of(self.location_id));
        let at_least = with_parameter(located, "minMembers"@, decimal_of(self.min_members));
        let at_most = with_parameter(at_least, "maxMembers"@, decimal_of(self.max_members));
        let levelled = with_parameter(at_most, "minClanLevel"@, decimal_of(self.min_clan_level));
        with_parameter(levelled, "labelIds"@, self.label_ids_text())
    }

    /// Creates a `ClanSearchOptionsBuilder` to configure `ClanSearchOptions`.
    ///
    /// This is the same as `ClanSearchOptionsBuilder::new()`.
    pub fn builder() -> (builder: ClanSearchOptionsBuilder)
        ensures
            builder.options() == ClanSearchOptions::unset(),
    {
        ClanSearchOptionsBuilder::new()
    }

    /// The query parameters for these options. An option that is not set
    /// gives no parameter; the war frequency is sent as a JSON string, the
    /// numbers in decimal and the label ids separated by commas.
    pub fn to_query_parameters(self) -> (parameters: QueryParameters)
        ensures
            parameters@ == self.query(),
    {
        let mut parameters = QueryParameters::new();
        parameters.insert_some("name", self.name);
        let frequency = match self.war_frequency {
            Some(frequency) => {
                proof {
                    lemma_wire_name_is_plain(frequency);
                }
                Some(json_string(frequency.wire_name()))
            },
            None => None,
        };
        parameters.insert_some("warFrequency", frequency);
        parameters.insert_some("locationId", number_text(self.location_id));
        parameters.insert_some("minMembers", number_text(self.min_members));
        parameters.insert_some("maxMembers", number_text(self.max_members));
        parameters.insert_some("minClanLevel", number_text(self.min_clan_level));
        let labels = match self.label_ids {
            Some(ids) => Some(join(&ids, ",")),
            None => None,
        };
        parameters.insert_some("labelIds", labels);
        parameters
    }
}

/// The names of the query parameters of a search.
pub open spec fn is_search_parameter(name: Seq<char>) -> bool {
    ||| name == "name"@
    ||| name == "warFrequency"@
    ||| name == "locationId"@
    ||| name == "minMembers"@
    ||| name == "maxMembers"@
    ||| name == "minClanLevel"@
    ||| name == "labelIds"@
}

/// The names of the search parameters differ from each other and from the
/// names of the paging parameters.
proof fn lemma_parameter_names_differ()
    ensures
        "name"@ != "warFrequency"@,
        "name"@ != "locationId"@,
        "name"@ != "minMembers"@,
        "name"@ != "maxMembers"@,
        "name"@ != "minClanLevel"@,
        "name"@ != "labelIds"@,
        "warFrequency"@ != "locationId"@,
        "warFrequency"@ != "minMembers"@,
        "warFrequency"@ != "maxMembers"@,
        "warFrequency"@ != "minClanLevel"@,
        "warFrequency"@ != "labelIds"@,
        "locationId"@ != "minMembers"@,
        "locationId"@ != "maxMembers"@,
        "locationId"@ != "minClanLevel"@,
        "locationId"@ != "labelIds"@,
        "minMembers"@ != "maxMembers"@,
        "minMembers"@ != "minClanLevel"@,
        "minMembers"@ != "labelIds"@,
        "maxMembers"@ != "minClanLevel"@,
        "maxMembers"@ != "labelIds"@,
        "minClanLevel"@ != "labelIds"@,
        !is_search_parameter("limit"@),
        !is_search_parameter("after"@),
        !is_search_parameter("before"@),
{
    reveal_strlit("name");
    reveal_strlit("warFrequency");
    reveal_strlit("locationId");
    reveal_strlit("minMembers");
    reveal_strlit("maxMembers");
    reveal_strlit("minClanLevel");
    reveal_strlit("labelIds");
    reveal_strlit("limit");
    reveal_strlit("after");
    reveal_strlit("before");
    assert("warFrequency"@[0] == 'w');
    assert("locationId"@[0] == 'l' && "locationId"@[1] == 'o');
    assert("minMembers"@[0] == 'm' && "minMembers"@[1] == 'i' && "minMembers"@[3] == 'M');
    assert("maxMembers"@[0] == 'm' && "maxMembers"@[1] == 'a');
    assert("minClanLevel"@[0] == 'm' && "minClanLevel"@[1] == 'i' && "minClanLevel"@[3] == 'C');
    assert("labelIds"@[0] == 'l' && "labelIds"@[1] == 'a');
    assert("limit"@[0] == 'l' && "limit"@[1] == 'i');
    assert("after"@[0] == 'a');
    assert("before"@[0] == 'b');
}

/// A parameter is sent exactly where its option is set, with the option's
/// value, and nothing else is sent.
pub proof fn lemma_search_query(options: ClanSearchOptions)
    ensures
        options.query().dom().finite(),
        options.query().contains_key("name"@) <==> options.name is Some,
        options.query().contains_key("warFrequency"@) <==> options.war_frequency is Some,
        options.query().contains_key("locationId"@) <==> options.location_id is Some,
        options.query().contains_key("minMembers"@) <==> options.min_members is Some,
        options.query().contains_key("maxMembers"@) <==> options.max_members is Some,
        options.query().contains_key("minClanLevel"@) <==> options.min_clan_level is Some,
        options.query().contains_key("labelIds"@) <==> options.label_ids is Some,
        options.name matches Some(name) ==> options.query()["name"@] == name@,
        options.war_frequency matches Some(frequency) ==> options.query()["warFrequency"@]
            == json_text(frequency.wire_name_text()),
        options.location_id matches Some(id) ==> options.query()["locationId"@] == decimal(
            id as int,
        ),
        options.min_members matches Some(count) ==> options.query()["minMembers"@] == decimal(
            count as int,
        ),
        options.max_members matches Some(count) ==> options.query()["maxMembers"@] == decimal(
            count as int,
        ),
        options.min_clan_level matches Some(level) ==> options.query()["minClanLevel"@]
            == decimal(level as int),
        options.label_ids matches Some(ids) ==> options.query()["labelIds"@] == joined(
            views(ids@),
            ","@,
        ),
        forall|name: Seq<char>| #[trigger]
            options.query().contains_key(name) ==> is_search_parameter(name),
{
    lemma_parameter_names_differ();
}

/// Filters and paging never meet: no parameter of a search has the name of
/// a paging parameter, so a request with both carries each of them.
pub proof fn lemma_search_and_paging_are_disjoint(
    search: ClanSearchOptions,
    paging: crate::api::common::pagination::PaginationOptions,
)
    ensures
        search.query().dom().disjoint(paging.query().dom()),
        forall|name: Seq<char>| #[trigger]
            search.query().contains_key(name) ==> search.query().union_prefer_right(
                paging.query(),
            )[name] == search.query()[name],
        forall|name: Seq<char>| #[trigger]
            paging.query().contains_key(name) ==> search.query().union_prefer_right(
                paging.query(),
            )[name] == paging.query()[name],
        search.query().union_prefer_right(paging.query()).len() == search.query().len()
            + paging.query().len(),
{
    lemma_parameter_names_differ();
    lemma_search_query(search);
    crate::api::common::pagination::lemma_pagination_query(paging);
    let filters = search.query();
    let pages = paging.query();
    assert forall|name: Seq<char>| !(filters.dom().contains(name) && pages.dom().contains(
        name,
    )) by {
        if pages.contains_key(name) {
        }
    }
    assert(filters.union_prefer_right(pages).dom() =~= filters.dom().union(pages.dom()));
    vstd::set_lib::lemma_set_disjoint_lens(filters.dom(), pages.dom());
}

impl Default for ClanSearchOptions {
    /// Options with nothing set.
    fn default() -> (options: Self)
        ensures
            options == ClanSearchOptions::unset(),
    {
        ClanSearchOptions {
            name: None,
            war_frequency: None,
            location_id: None,
            min_members: None,
            max_members: None,
            min_clan_level: None,
            label_ids: None,
        }
    }
}

/// Builder for `ClanSearchOptions`
#[derive(Debug)]
pub struct ClanSearchOptionsBuilder {
    name: Option<String>,
    war_frequency: Option<APIWarFrequency>,
    location_id: Option<i64>,
    min_members: Option<i64>,
    max_members: Option<i64>,
    min_clan_level: Option<i64>,
    label_ids: Option<Vec<String>>,
}

impl Default for ClanSearchOptionsBuilder {
    /// A builder with nothing set.
    fn default() -> (builder: Self)
        ensures
            builder.options() == ClanSearchOptions::unset(),
    {
        ClanSearchOptionsBuilder::new()
    }
}

impl ClanSearchOptionsBuilder {
    /// The options that `build` would return now.
    pub closed spec fn options(&self) -> ClanSearchOptions {
        ClanSearchOptions {
            name: self.name,
            war_frequency: self.war_frequency,
            location_id: self.location_id,
            min_members: self.min_members,
            max_members: self.max_members,
            min_clan_level: self.min_clan_level,
            label_ids: self.label_ids,
        }
    }

    /// Constructs a new `ClanSearchOptionsBuilder`.
    ///
    /// This is the same as `ClanSearchOptions::builder()`.
    pub fn new() -> (builder: Self)
        ensures
            builder.options() == ClanSearchOptions::unset(),
    {
        ClanSearchOptionsBuilder {
            name: None,
            war_frequency: None,
            location_id: None,
            min_members: None,
            max_members: None,
            min_clan_level: None,
            label_ids: None,
        }
    }

    /// Sets the name filter for the clan search.
    pub fn name(self, name: String) -> (builder: Self)
        ensures
            builder.options() == (ClanSearchOptions { name: Some(name), ..self.options() }),
    {
        let mut builder = self;
        builder.name = Some(name);
        builder
    }

    /// Sets the war frequency filter for the clan search.
    pub fn war_frequency(self, war_frequency: APIWarFrequency) -> (builder: Self)
        ensures
            builder.options() == (ClanSearchOptions {
                war_frequency: Some(war_frequency),
                ..self.options()
            }),
    {
        let mut builder = self;
        builder.war_frequency = Some(war_frequency);
        builder
    }

    /// Sets the location ID filter for the clan search.
    pub fn location_id(self, location_id: i64) -> (builder: Self)
        ensures
            builder.options() == (ClanSearchOptions {
                location_id: Some(location_id),
                ..self.options()
            }),
    {
        let mut builder = self;
        builder.location_id = Some(location_id);
        builder
    }

    /// Sets the minimum number of clan members for the search.
    pub fn min_members(self, min_members: i64) -> (builder: Self)
        ensures
            builder.options() == (ClanSearchOptions {
                min_members: Some(min_members),
                ..self.options()
            }),
    {
        let mut builder = self;
        builder.min_members = Some(min_members);
        builder
    }

    /// Sets the maximum number of clan members for the search.
    pub fn max_members(self, max_members: i64) -> (builder: Self)
        ensures
            builder.options() == (ClanSearchOptions {
                max_members: Some(max_members),
                ..self.options()
            }),
    {
        let mut builder = self;
        builder.max_members = Some(max_members);
        builder
    }

    /// Sets the minimum clan level for the search.
    pub fn min_clan_level(self, min_clan_level: i64) -> (builder: Self)
        ensures
            builder.options() == (ClanSearchOptions {
                min_clan_level: Some(min_clan_level),
                ..self.options()
            }),
    {
        let mut builder = self;
        builder.min_clan_level = Some(min_clan_level);
        builder
    }

    /// Sets the label IDs for filtering results.
    pub fn label_ids(self, label_ids: Vec<String>) -> (builder: Self)
        ensures
            builder.options() == (ClanSearchOptions {
                label_ids: Some(label_ids),
                ..self.options()
            }),
    {
        let mut builder = self;
        builder.label_ids = Some(label_ids);
        builder
    }

    /// Returns the 'ClanSearchOptions' that uses 'ClanSearchOptionsBuilder' configuration.
    pub fn build(self) -> (options: ClanSearchOptions)
        ensures
            options == self.options(),
    {
        ClanSearchOptions {
            name: self.name,
            war_frequency: self.war_frequency,
            location_id: self.location_id,
            min_members: self.min_members,
            max_members: self.max_members,
            min_clan_level: self.min_clan_level,
            label_ids: self.label_ids,
        }
    }
}

} // verus!

//! Records that several resources share.

use vstd::prelude::*;

verus! {

/// One page of a list.
#[derive(Debug, Clone, PartialEq, Eq)]
pub struct APIPagedResponse<T> {
    pub items: Vec<T>,
    pub paging: APIPaging,
}

/// Where a page stands in its list.
#[derive(Debug, Clone, PartialEq, Eq)]
pub struct APIPaging {
    pub cursors: APICursors,
}

/// The cursors to the pages after and before a page.
#[derive(Debug, Clone, PartialEq, Eq)]
pub struct APICursors {
    pub after: Option<String>,
    pub before: Option<String>,
}

/// The icon of a league or a label, in up to three sizes.
#[derive(Debug, Clone, PartialEq, Eq)]
pub struct APIIcon {
    pub small: String,
    pub tiny: Option<String>,
    /// Unranked leagues have no medium icon.
    pub medium: Option<String>,
}

/// The badge of a clan, in three sizes.
#[derive(Debug, Clone, PartialEq, Eq)]
pub struct APIBadge {
    pub small: String,
    pub medium: String,
    pub large: String,
}

} // verus!

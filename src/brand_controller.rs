//! The brand endpoints' request parameters.
use vstd::prelude::*;

use crate::query::{capped_limit, resolve_list_params, text_or, ListParams, DEFAULT_LIMIT};

verus! {

/// The query string of `GET /v1/brand`, every parameter optional.
#[derive(Clone, Debug, PartialEq, Eq)]
pub struct GetParams {
    pub offset: Option<u32>,
    pub limit: Option<u32>,
    pub sort_by: Option<String>,
    pub sort_order: Option<String>,
    pub filter_by: Option<String>,
    pub filter_term: Option<String>,
}

impl GetParams {
    /// The list parameters with defaults filled in: offset 0, limit 10 capped
    /// at 100, sort by `name` in `asc` order, no filter.
    pub fn resolve(self) -> (r: ListParams)
        ensures
            r.offset == (match self.offset {
                Some(o) => o,
                None => 0,
            }),
            r.limit == capped_limit(
                match self.limit {
                    Some(l) => l,
                    None => DEFAULT_LIMIT,
                },
            ),
            r.sort_by@ == text_or(self.sort_by, "name"@),
            r.sort_order@ == text_or(self.sort_order, "asc"@),
            r.filter_by@ == text_or(self.filter_by, ""@),
            r.filter_term@ == text_or(self.filter_term, ""@),
    {
        resolve_list_params(
            self.offset,
            self.limit,
            self.sort_by,
            self.sort_order,
            self.filter_by,
            self.filter_term,
            "name",
        )
    }
}

} // verus!

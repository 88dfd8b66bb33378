//! Pieces shared by the list queries of every entity: paging bounds, sort
//! direction, when a filter applies, and the resolved request parameters.
use vstd::prelude::*;

use crate::text::text_eq;

verus! {

/// The most rows one list request returns.
pub const MAX_LIMIT: u32 = 100;

/// The rows a list request returns when the client names no limit.
pub const DEFAULT_LIMIT: u32 = 10;

/// The direction of an ORDER BY clause.
#[derive(Clone, Copy, Debug, PartialEq, Eq, Structural, Hash)]
pub enum SortDirection {
    Asc,
    Desc,
}

/// The direction a client's sort order names: exactly `asc` or `desc`, case
/// included. Anything else names none, and the query is left unordered.
pub open spec fn sort_direction_named(order: Seq<char>) -> Option<SortDirection> {
    if order == "asc"@ {
        Some(SortDirection::Asc)
    } else if order == "desc"@ {
        Some(SortDirection::Desc)
    } else {
        None
    }
}

/// Reads a client's sort order.
pub fn parse_sort_order(order: &str) -> (r: Option<SortDirection>)
    ensures
        r == sort_direction_named(order@),
{
    if text_eq(order, "asc") {
        Some(SortDirection::Asc)
    } else if text_eq(order, "desc") {
        Some(SortDirection::Desc)
    } else {
        None
    }
}

/// A requested limit, silently capped at `MAX_LIMIT`.
pub open spec fn capped_limit(limit: u32) -> u32 {
    if limit <= MAX_LIMIT {
        limit
    } else {
        MAX_LIMIT
    }
}

/// Caps a requested limit at `MAX_LIMIT`.
pub fn cap_limit(limit: u32) -> (r: u32)
    ensures
        r == capped_limit(limit),
        r <= MAX_LIMIT,
{
    if limit <= MAX_LIMIT {
        limit
    } else {
        MAX_LIMIT
    }
}

/// A filter applies only when both the field and the term are non-empty.
pub open spec fn filter_requested(filter_by: Seq<char>, filter_term: Seq<char>) -> bool {
    filter_by.len() > 0 && filter_term.len() > 0
}

/// Whether a filter applies to a list request.
pub fn wants_filter(filter_by: &str, filter_term: &str) -> (r: bool)
    ensures
        r == filter_requested(filter_by@, filter_term@),
{
    !filter_by.is_empty() && !filter_term.is_empty()
}

/// The parameters of a list request once defaults are filled in.
#[derive(Clone, Debug, PartialEq, Eq)]
pub struct ListParams {
    pub offset: u32,
    pub limit: u32,
    pub sort_by: String,
    pub sort_order: String,
    pub filter_by: String,
    pub filter_term: String,
}

} // verus!

verus! {

/// The text of an optional request parameter, or `default` where it is absent.
pub open spec fn text_or(value: Option<String>, default: Seq<char>) -> Seq<char> {
    match value {
        Some(s) => s@,
        None => default,
    }
}

/// An optional request parameter, or a copy of `default` where it is absent.
pub fn string_or(value: Option<String>, default: &str) -> (r: String)
    ensures
        r@ == text_or(value, default@),
{
    match value {
        Some(s) => s,
        None => String::from_str(default),
    }
}

/// The list parameters of a request whose query string gave these optional
/// values: offset 0, limit `DEFAULT_LIMIT` (capped), sort field
/// `default_sort_by`, order `asc`, and no filter where a value is absent.
pub fn resolve_list_params(
    offset: Option<u32>,
    limit: Option<u32>,
    sort_by: Option<String>,
    sort_order: Option<String>,
    filter_by: Option<String>,
    filter_term: Option<String>,
    default_sort_by: &str,
) -> (r: ListParams)
    ensures
        r.offset == (match offset {
            Some(o) => o,
            None => 0,
        }),
        r.limit == capped_limit(
            match limit {
                Some(l) => l,
                None => DEFAULT_LIMIT,
            },
        ),
        r.sort_by@ == text_or(sort_by, default_sort_by@),
        r.sort_order@ == text_or(sort_order, "asc"@),
        r.filter_by@ == text_or(filter_by, ""@),
        r.filter_term@ == text_or(filter_term, ""@),
{
    let offset = match offset {
        Some(o) => o,
        None => 0,
    };
    let limit = match limit {
        Some(l) => l,
        None => DEFAULT_LIMIT,
    };
    ListParams {
        offset,
        limit: cap_limit(limit),
        sort_by: string_or(sort_by, default_sort_by),
        sort_order: string_or(sort_order, "asc"),
        filter_by: string_or(filter_by, ""),
        filter_term: string_or(filter_term, ""),
    }
}

} // verus!

//! The brand repository's decisions: the list query a request becomes, and
//! the rows that a create or an update writes.
use vstd::prelude::*;

use crate::brand_columns::{brand_column_named, default_brand_column, get_column, BrandColumn};
use crate::brand_models::{
    audit_actor, carries_create, Brand, BrandChanges, CreateBrand, UpdateBrand,
};
use crate::generate::{is_random_uuid, now_micros, random_id};
use crate::query::{
    cap_limit, capped_limit, filter_requested, parse_sort_order, sort_direction_named,
    wants_filter, SortDirection,
};
use crate::repository::{RecordKind, RepositoryError};

verus! {

/// An ORDER BY clause on one brand column.
#[derive(Clone, Copy, Debug, PartialEq, Eq, Structural, Hash)]
pub struct BrandOrder {
    pub column: BrandColumn,
    pub direction: SortDirection,
}

/// An equality filter on one brand column; every brand column holds text.
#[derive(Debug, PartialEq, Eq)]
pub struct BrandFilter {
    pub column: BrandColumn,
    pub term: String,
}

/// One SELECT over the brands, optionally filtered by equality on one column
/// and ordered by one column, then paged.
#[derive(Debug, PartialEq, Eq)]
pub struct BrandQuery {
    pub offset: u32,
    pub limit: u32,
    pub order: Option<BrandOrder>,
    pub filter: Option<BrandFilter>,
}

/// The ordering a list request asks for: the named column (or the default
/// one), and only when the direction is exactly `asc` or `desc`.
pub open spec fn brand_order_for(sort_by: Seq<char>, sort_order: Seq<char>) -> Option<BrandOrder> {
    match sort_direction_named(sort_order) {
        Some(d) => Some(BrandOrder { column: brand_column_named(sort_by), direction: d }),
        None => None,
    }
}

/// `q` is the query for the list request with these parameters.
pub open spec fn plans_brand_list(
    q: BrandQuery,
    offset: u32,
    limit: u32,
    sort_by: Seq<char>,
    sort_order: Seq<char>,
    filter_by: Seq<char>,
    filter_term: Seq<char>,
) -> bool {
    &&& q.offset == offset
    &&& q.limit == capped_limit(limit)
    &&& q.order == brand_order_for(sort_by, sort_order)
    &&& if filter_requested(filter_by, filter_term) {
        q.filter matches Some(f) && f.column == brand_column_named(filter_by) && f.term@
            == filter_term
    } else {
        q.filter is None
    }
}

/// Builds the query for a list request. Unknown sort or filter fields fall
/// back to the `name` column, a sort order other than `asc` or `desc` leaves
/// the rows unordered, and the limit is capped. Every brand column holds
/// text, so no request fails.
pub fn list_query(
    offset: u32,
    limit: u32,
    sort_by: &str,
    sort_order: &str,
    filter_by: &str,
    filter_term: &str,
) -> (q: BrandQuery)
    ensures
        plans_brand_list(q, offset, limit, sort_by@, sort_order@, filter_by@, filter_term@),
        sort_direction_named(sort_order@) is None <==> q.order is None,
        !(sort_by@ == "name"@ || sort_by@ == "created_by"@ || sort_by@ == "updated_by"@) ==> (
        q.order matches Some(o) ==> o.column == default_brand_column()),
{
    let order = match parse_sort_order(sort_order) {
        Some(direction) => Some(BrandOrder { column: get_column(sort_by), direction }),
        None => None,
    };
    let filter = if wants_filter(filter_by, filter_term) {
        Some(BrandFilter { column: get_column(filter_by), term: String::from_str(filter_term) })
    } else {
        None
    };
    BrandQuery { offset, limit: cap_limit(limit), order, filter }
}

/// The row that creating `input` under `id` at time `now` inserts: created by
/// the audit actor, never updated or deleted.
pub fn brand_from_input(id: u128, now: i64, input: &CreateBrand) -> (r: Brand)
    ensures
        r.id == id,
        r.created_at == now,
        r.updated_at is None,
        r.deleted_at is None,
        r.created_by@ == audit_actor(),
        r.updated_by is None,
        r.deleted_by is None,
        carries_create(r, *input),
{
    proof {
        reveal_strlit("admin");
    }
    Brand {
        id,
        name: input.name.clone(),
        image_url: input.image_url.clone(),
        thumbnail_url: input.thumbnail_url.clone(),
        created_at: now,
        updated_at: None,
        deleted_at: None,
        created_by: String::from_str("admin"),
        updated_by: None,
        deleted_by: None,
    }
}

/// The row to insert for a new brand, under a fresh random id and stamped now.
pub fn new_brand(input: CreateBrand) -> (r: Brand)
    ensures
        is_random_uuid(r.id),
        r.updated_at is None,
        r.deleted_at is None,
        r.created_by@ == audit_actor(),
        r.updated_by is None,
        r.deleted_by is None,
        carries_create(r, input),
{
    let now = now_micros();
    brand_from_input(random_id(), now, &input)
}

/// The rows to insert for a bulk create, one per input and in its order, each
/// under a fresh random id and all stamped with one time. No input is an
/// error, and nothing is to be written.
pub fn new_brands(inputs: Vec<CreateBrand>) -> (r: Result<Vec<Brand>, RepositoryError>)
    ensures
        r is Err <==> inputs@.len() == 0,
        r is Err ==> r == Err::<Vec<Brand>, RepositoryError>(
            RepositoryError::EmptyInput(RecordKind::Brand),
        ),
        r matches Ok(rows) ==> rows@.len() == inputs@.len() && forall|i: int|
            0 <= i < rows@.len() ==> {
                &&& is_random_uuid(#[trigger] rows@[i].id)
                &&& rows@[i].created_at == rows@[0].created_at
                &&& rows@[i].updated_at is None
                &&& rows@[i].deleted_at is None
                &&& rows@[i].created_by@ == audit_actor()
                &&& rows@[i].updated_by is None
                &&& rows@[i].deleted_by is None
                &&& carries_create(rows@[i], inputs@[i])
            },
{
    if inputs.len() == 0 {
        return Err(RepositoryError::EmptyInput(RecordKind::Brand));
    }
    let now = now_micros();
    let mut rows: Vec<Brand> = Vec::new();
    let mut i: usize = 0;
    while i < inputs.len()
        invariant
            0 < inputs@.len(),
            i <= inputs@.len(),
            rows@.len() == i,
            forall|j: int|
                0 <= j < i ==> {
                    &&& is_random_uuid(#[trigger] rows@[j].id)
                    &&& rows@[j].created_at == now
                    &&& rows@[j].updated_at is None
                    &&& rows@[j].deleted_at is None
                    &&& rows@[j].created_by@ == audit_actor()
                    &&& rows@[j].updated_by is None
                    &&& rows@[j].deleted_by is None
                    &&& carries_create(rows@[j], inputs@[j])
                },
        decreases inputs@.len() - i,
    {
        let row = brand_from_input(random_id(), now, &inputs[i]);
        rows.push(row);
        i = i + 1;
    }
    assert(is_random_uuid(rows@[0].id));
    Ok(rows)
}

/// The columns an update made at time `now` writes: the client's fields, and
/// the audit actor as the last one to update.
pub fn brand_changes(input: UpdateBrand, now: i64) -> (r: BrandChanges)
    ensures
        r.name@ == input.name@,
        r.image_url@ == input.image_url@,
        r.thumbnail_url@ == input.thumbnail_url@,
        r.updated_at == now,
        r.updated_by@ == audit_actor(),
{
    proof {
        reveal_strlit("admin");
    }
    BrandChanges {
        name: input.name,
        image_url: input.image_url,
        thumbnail_url: input.thumbnail_url,
        updated_at: now,
        updated_by: String::from_str("admin"),
    }
}

/// The columns an update made now writes.
pub fn changes_now(input: UpdateBrand) -> (r: BrandChanges)
    ensures
        r.name@ == input.name@,
        r.image_url@ == input.image_url@,
        r.thumbnail_url@ == input.thumbnail_url@,
        r.updated_by@ == audit_actor(),
{
    let now = now_micros();
    brand_changes(input, now)
}

} // verus!

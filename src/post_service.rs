//! The post repository's decisions: the list query a request becomes, and the
//! rows that a create or an update writes.
use vstd::prelude::*;

use crate::generate::{is_random_uuid, random_id};
use crate::post_columns::{
    default_post_column, get_column, is_post_field, post_column_named, PostBigIntegerColumn, PostBoolColumn, PostColumn,
    PostIntegerColumn, PostTextColumn,
};
use crate::post_models::{carries_create, carries_update, CreatePost, Post, UpdatePost};
use crate::query::{
    cap_limit, capped_limit, filter_requested, parse_sort_order, sort_direction_named,
    wants_filter, SortDirection,
};
use crate::repository::{RecordKind, RepositoryError};
use crate::text::{
    bool_parse_error, boolean_text, i32_parse_error, i64_parse_error, parse_bool, parse_i32,
    parse_i64, signed_decimal,
};

verus! {

/// An ORDER BY clause on one post column.
#[derive(Clone, Copy, Debug, PartialEq, Eq, Structural, Hash)]
pub struct PostOrder {
    pub column: PostColumn,
    pub direction: SortDirection,
}

/// An equality filter on one post column, its value already of the column's type.
#[derive(Debug, PartialEq, Eq)]
pub enum PostFilter {
    Integer(PostIntegerColumn, i32),
    Text(PostTextColumn, String),
    Bool(PostBoolColumn, bool),
    BigInteger(PostBigIntegerColumn, i64),
}

/// One SELECT over the posts: only published rows when `only_published` is
/// set (the base predicate `published = true`, which every list request
/// carries), optionally filtered by equality on one column and ordered by one
/// column, then paged.
#[derive(Debug, PartialEq, Eq)]
pub struct PostQuery {
    pub only_published: bool,
    pub offset: u32,
    pub limit: u32,
    pub order: Option<PostOrder>,
    pub filter: Option<PostFilter>,
}

/// Whether `term` reads as a value of `column`'s type.
pub open spec fn reads_as(column: PostColumn, term: Seq<char>) -> bool {
    match column {
        PostColumn::Integer(_) => signed_decimal(term) matches Some(v) && i32::MIN <= v
            <= i32::MAX,
        PostColumn::BigInteger(_) => signed_decimal(term) matches Some(v) && i64::MIN <= v
            <= i64::MAX,
        PostColumn::Bool(_) => boolean_text(term) is Some,
        PostColumn::Text(_) => true,
    }
}

/// `f` compares `column` with `term` read as the column's type.
pub open spec fn is_filter_for(f: PostFilter, column: PostColumn, term: Seq<char>) -> bool {
    match column {
        PostColumn::Integer(c) => f matches PostFilter::Integer(fc, v) && fc == c
            && signed_decimal(term) == Some(v as int),
        PostColumn::BigInteger(c) => f matches PostFilter::BigInteger(fc, v) && fc == c
            && signed_decimal(term) == Some(v as int),
        PostColumn::Bool(c) => f matches PostFilter::Bool(fc, v) && fc == c && boolean_text(term)
            == Some(v),
        PostColumn::Text(c) => f matches PostFilter::Text(fc, v) && fc == c && v@ == term,
    }
}

/// The ordering a list request asks for: the named column (or the default
/// one), and only when the direction is exactly `asc` or `desc`.
pub open spec fn post_order_for(sort_by: Seq<char>, sort_order: Seq<char>) -> Option<PostOrder> {
    match sort_direction_named(sort_order) {
        Some(d) => Some(PostOrder { column: post_column_named(sort_by), direction: d }),
        None => None,
    }
}

/// A list request fails exactly when it asks for a filter whose term does not
/// read as the filtered column's type.
pub open spec fn post_list_fails(filter_by: Seq<char>, filter_term: Seq<char>) -> bool {
    filter_requested(filter_by, filter_term) && !reads_as(post_column_named(filter_by), filter_term)
}

/// `q` is the query for the list request with these parameters.
pub open spec fn plans_post_list(
    q: PostQuery,
    offset: u32,
    limit: u32,
    sort_by: Seq<char>,
    sort_order: Seq<char>,
    filter_by: Seq<char>,
    filter_term: Seq<char>,
) -> bool {
    &&& q.only_published
    &&& q.offset == offset
    &&& q.limit == capped_limit(limit)
    &&& q.order == post_order_for(sort_by, sort_order)
    &&& if filter_requested(filter_by, filter_term) {
        q.filter matches Some(f) && is_filter_for(f, post_column_named(filter_by), filter_term)
    } else {
        q.filter is None
    }
}

/// The parser's message for a term that does not read as `column`'s type.
pub open spec fn filter_error_text(column: PostColumn, term: Seq<char>) -> Seq<char> {
    match column {
        PostColumn::Integer(_) => i32_parse_error(term),
        PostColumn::BigInteger(_) => i64_parse_error(term),
        PostColumn::Bool(_) => bool_parse_error(term),
        PostColumn::Text(_) => Seq::empty(),
    }
}

/// Reads a filter term as a value of `column`'s type; where it does not read,
/// the error is the parser's message.
pub fn post_filter(column: PostColumn, term: &str) -> (r: Result<PostFilter, String>)
    ensures
        r is Ok <==> reads_as(column, term@),
        r matches Ok(f) ==> is_filter_for(f, column, term@),
        r matches Err(e) ==> e@ == filter_error_text(column, term@),
{
    match column {
        PostColumn::Integer(c) => match parse_i32(term) {
            Ok(v) => Ok(PostFilter::Integer(c, v)),
            Err(e) => Err(e),
        },
        PostColumn::Text(c) => Ok(PostFilter::Text(c, String::from_str(term))),
        PostColumn::Bool(c) => match parse_bool(term) {
            Ok(v) => Ok(PostFilter::Bool(c, v)),
            Err(e) => Err(e),
        },
        PostColumn::BigInteger(c) => match parse_i64(term) {
            Ok(v) => Ok(PostFilter::BigInteger(c, v)),
            Err(e) => Err(e),
        },
    }
}

/// Builds the query for a list request. Unknown sort or filter fields fall
/// back to the `model` column, a sort order other than `asc` or `desc` leaves
/// the rows unordered, and the limit is capped. The one failure is a filter
/// term that does not read as the filtered column's type.
pub fn list_query(
    offset: u32,
    limit: u32,
    sort_by: &str,
    sort_order: &str,
    filter_by: &str,
    filter_term: &str,
) -> (r: Result<PostQuery, RepositoryError>)
    ensures
        r is Err <==> post_list_fails(filter_by@, filter_term@),
        !filter_requested(filter_by@, filter_term@) ==> r is Ok,
        r matches Ok(q) ==> (sort_direction_named(sort_order@) is None <==> q.order is None),
        r matches Ok(q) ==> (!is_post_field(sort_by@) ==> (q.order matches Some(o) ==> o.column
            == default_post_column())),
        r matches Err(e) ==> e matches RepositoryError::InvalidFilter(t) && t@ == filter_error_text(
            post_column_named(filter_by@),
            filter_term@,
        ),
        r matches Ok(q) ==> plans_post_list(
            q,
            offset,
            limit,
            sort_by@,
            sort_order@,
            filter_by@,
            filter_term@,
        ),
{
    let order = match parse_sort_order(sort_order) {
        Some(direction) => Some(PostOrder { column: get_column(sort_by), direction }),
        None => None,
    };
    let filter = if wants_filter(filter_by, filter_term) {
        match post_filter(get_column(filter_by), filter_term) {
            Ok(f) => Some(f),
            Err(message) => {
                return Err(RepositoryError::InvalidFilter(message));
            },
        }
    } else {
        None
    };
    Ok(PostQuery { only_published: true, offset, limit: cap_limit(limit), order, filter })
}

/// The row that creating `input` under `id` inserts: published, whatever the client sent.
pub fn post_from_input(id: u128, input: &CreatePost) -> (r: Post)
    ensures
        r.id == id,
        r.published,
        carries_create(r, *input),
{
    Post {
        id,
        brand: input.brand.clone(),
        model: input.model.clone(),
        version: input.version.clone(),
        engine: input.engine.clone(),
        transmission: input.transmission.clone(),
        year: input.year,
        mileage: input.mileage,
        color: input.color.clone(),
        body: input.body.clone(),
        armored: input.armored,
        exchange: input.exchange,
        price: input.price,
        thumbnail_url: input.thumbnail_url.clone(),
        author: input.author.clone(),
        published: true,
    }
}

/// The row to insert for a new post, under a fresh random id.
pub fn new_post(input: CreatePost) -> (r: Post)
    ensures
        is_random_uuid(r.id),
        r.published,
        carries_create(r, input),
{
    post_from_input(random_id(), &input)
}

/// The rows to insert for a bulk create, one per input and in its order, each
/// under a fresh random id. No input is an error, and nothing is to be written.
pub fn new_posts(inputs: Vec<CreatePost>) -> (r: Result<Vec<Post>, RepositoryError>)
    ensures
        r is Err <==> inputs@.len() == 0,
        r is Err ==> r == Err::<Vec<Post>, RepositoryError>(
            RepositoryError::EmptyInput(RecordKind::Post),
        ),
        r matches Ok(rows) ==> rows@.len() == inputs@.len() && forall|i: int|
            0 <= i < rows@.len() ==> {
                &&& is_random_uuid(#[trigger] rows@[i].id)
                &&& rows@[i].published
                &&& carries_create(rows@[i], inputs@[i])
            },
{
    if inputs.len() == 0 {
        return Err(RepositoryError::EmptyInput(RecordKind::Post));
    }
    let mut rows: Vec<Post> = Vec::new();
    let mut i: usize = 0;
    while i < inputs.len()
        invariant
            i <= inputs@.len(),
            rows@.len() == i,
            forall|j: int|
                0 <= j < i ==> {
                    &&& is_random_uuid(#[trigger] rows@[j].id)
                    &&& rows@[j].published
                    &&& carries_create(rows@[j], inputs@[j])
                },
        decreases inputs@.len() - i,
    {
        let row = post_from_input(random_id(), &inputs[i]);
        rows.push(row);
        i = i + 1;
    }
    Ok(rows)
}

/// The row an update of post `id` writes: every field from `input`, the id kept.
pub fn post_changes(id: u128, input: UpdatePost) -> (r: Post)
    ensures
        r.id == id,
        carries_update(r, input),
{
    Post {
        id,
        brand: input.brand,
        model: input.model,
        version: input.version,
        engine: input.engine,
        transmission: input.transmission,
        year: input.year,
        mileage: input.mileage,
        color: input.color,
        body: input.body,
        armored: input.armored,
        exchange: input.exchange,
        price: input.price,
        thumbnail_url: input.thumbnail_url,
        author: input.author,
        published: input.published,
    }
}

} // verus!

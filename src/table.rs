//! What each statement the repositories issue means, stated over a table
//! modelled as the sequence of its rows, and the laws that follow for the
//! operations built on them.
use vstd::prelude::*;

use crate::brand_models::{self, Brand, CreateBrand};
use crate::brand_service::{plans_brand_list, BrandFilter, BrandQuery};
use crate::brand_columns::{BrandColumn, BrandNullableTextColumn, BrandTextColumn};
use crate::post_columns::{
    PostBigIntegerColumn, PostBoolColumn, PostColumn, PostIntegerColumn, PostTextColumn,
};
use crate::post_models::{self, CreatePost, Post};
use crate::post_service::{plans_post_list, PostFilter, PostOrder, PostQuery};
use crate::query::{SortDirection, MAX_LIMIT};
use crate::repository::{fetch_outcome, RepositoryError};

verus! {

/// A stored record, identified by its primary key.
pub trait Record {
    spec fn record_id(&self) -> u128;
}

impl Record for Post {
    open spec fn record_id(&self) -> u128 {
        self.id
    }
}

impl Record for Brand {
    open spec fn record_id(&self) -> u128 {
        self.id
    }
}

/// Some row of the table has this id.
pub open spec fn has_id<T: Record>(rows: Seq<T>, id: u128) -> bool {
    exists|i: int| 0 <= i < rows.len() && #[trigger] rows[i].record_id() == id
}

/// No two rows share an id, as the primary key demands.
pub open spec fn ids_unique<T: Record>(rows: Seq<T>) -> bool {
    forall|i: int, j: int|
        0 <= i < rows.len() && 0 <= j < rows.len() && #[trigger] rows[i].record_id()
            == #[trigger] rows[j].record_id() ==> i == j
}

/// The rows whose id is in `ids`, in table order: what `WHERE id IN ids` selects.
pub open spec fn rows_with_ids<T: Record>(rows: Seq<T>, ids: Set<u128>) -> Seq<T> {
    rows.filter(|r: T| ids.contains(r.record_id()))
}

/// What `SELECT ... WHERE id = ? LIMIT 1` returns.
pub open spec fn select_by_id<T: Record>(rows: Seq<T>, id: u128) -> Option<T> {
    let found = rows_with_ids(rows, set![id]);
    if found.len() > 0 {
        Some(found[0])
    } else {
        None
    }
}

/// The count `UPDATE ... WHERE id = ?` or `DELETE ... WHERE id = ?` reports.
pub open spec fn affected_by_id<T: Record>(rows: Seq<T>, id: u128) -> nat {
    rows_with_ids(rows, set![id]).len()
}

/// The count `DELETE ... WHERE id IN (ids)` reports.
pub open spec fn affected_by_ids<T: Record>(rows: Seq<T>, ids: Seq<u128>) -> nat {
    rows_with_ids(rows, ids.to_set()).len()
}

/// The rows from `offset` on, at most `limit` of them.
pub open spec fn page_of<T>(rows: Seq<T>, offset: u32, limit: u32) -> Seq<T> {
    let start = if offset <= rows.len() {
        offset as int
    } else {
        rows.len() as int
    };
    let end = if start + limit <= rows.len() {
        start + limit
    } else {
        rows.len() as int
    };
    rows.subrange(start, end)
}

/// Whether post `p` passes the WHERE clause of `q`: published where the base
/// predicate applies, and equal to the filter's value where there is a filter.
pub open spec fn post_matches(q: PostQuery, p: Post) -> bool {
    &&& (q.only_published ==> p.published)
    &&& match q.filter {
        None => true,
        Some(PostFilter::Integer(c, v)) => match c {
            PostIntegerColumn::Year => p.year == v,
            PostIntegerColumn::Mileage => p.mileage == v,
        },
        Some(PostFilter::BigInteger(c, v)) => match c {
            PostBigIntegerColumn::Price => p.price == v,
        },
        Some(PostFilter::Bool(c, v)) => match c {
            PostBoolColumn::Armored => p.armored == v,
            PostBoolColumn::Exchange => p.exchange == v,
            PostBoolColumn::Published => p.published == v,
        },
        Some(PostFilter::Text(c, v)) => v@ == match c {
            PostTextColumn::Brand => p.brand@,
            PostTextColumn::Model => p.model@,
            PostTextColumn::Version => p.version@,
            PostTextColumn::Engine => p.engine@,
            PostTextColumn::Transmission => p.transmission@,
            PostTextColumn::Color => p.color@,
            PostTextColumn::Body => p.body@,
            PostTextColumn::ThumbnailUrl => p.thumbnail_url@,
            PostTextColumn::Author => p.author@,
        },
    }
}

/// The value of a numeric or boolean post column, as the database orders it
/// (`false` before `true`). Text columns order by the database's collation,
/// which this model leaves open.
pub open spec fn post_sort_key(p: Post, column: PostColumn) -> Option<int> {
    match column {
        PostColumn::Integer(PostIntegerColumn::Year) => Some(p.year as int),
        PostColumn::Integer(PostIntegerColumn::Mileage) => Some(p.mileage as int),
        PostColumn::BigInteger(PostBigIntegerColumn::Price) => Some(p.price as int),
        PostColumn::Bool(c) => Some(
            if match c {
                PostBoolColumn::Armored => p.armored,
                PostBoolColumn::Exchange => p.exchange,
                PostBoolColumn::Published => p.published,
            } {
                1
            } else {
                0
            },
        ),
        PostColumn::Text(_) => None,
    }
}

/// Post `a` may come before post `b` under `order`.
pub open spec fn may_precede(a: Post, b: Post, order: PostOrder) -> bool {
    match (post_sort_key(a, order.column), post_sort_key(b, order.column)) {
        (Some(x), Some(y)) => match order.direction {
            SortDirection::Asc => x <= y,
            SortDirection::Desc => x >= y,
        },
        _ => true,
    }
}

/// `out` is a result that `q` may return from `rows`: the matching rows, in
/// the order `q` asks for (any order where it asks for none), then paged.
pub open spec fn is_post_page(rows: Seq<Post>, q: PostQuery, out: Seq<Post>) -> bool {
    exists|picked: Seq<Post>|
        {
            &&& #[trigger] picked.to_multiset() == rows.filter(|p: Post| post_matches(q, p)).to_multiset()
            &&& (q.order matches Some(o) ==> forall|i: int, j: int|
                0 <= i < j < picked.len() ==> may_precede(#[trigger] picked[i], #[trigger] picked[j], o))
            &&& out == page_of(picked, q.offset, q.limit)
        }
}

/// Whether brand `b` passes the WHERE clause of `q`. A null column equals no term.
pub open spec fn brand_matches(q: BrandQuery, b: Brand) -> bool {
    match q.filter {
        None => true,
        Some(f) => match f.column {
            BrandColumn::Text(BrandTextColumn::Name) => b.name@ == f.term@,
            BrandColumn::Text(BrandTextColumn::CreatedBy) => b.created_by@ == f.term@,
            BrandColumn::NullableText(BrandNullableTextColumn::UpdatedBy) => match b.updated_by {
                Some(u) => u@ == f.term@,
                None => false,
            },
        },
    }
}

/// `out` is a result that `q` may return from `rows`: the matching rows, in
/// an order the database chooses, then paged.
pub open spec fn is_brand_page(rows: Seq<Brand>, q: BrandQuery, out: Seq<Brand>) -> bool {
    exists|picked: Seq<Brand>|
        #[trigger] picked.to_multiset() == rows.filter(|b: Brand| brand_matches(q, b)).to_multiset()
            && out == page_of(picked, q.offset, q.limit)
}

proof fn lemma_no_row_selected<T: Record>(rows: Seq<T>, id: u128)
    requires
        !has_id(rows, id),
    ensures
        rows_with_ids(rows, set![id]).len() == 0,
{
    let pred = |r: T| set![id].contains(r.record_id());
    let found = rows.filter(pred);
    if found.len() > 0 {
        rows.lemma_filter_pred(pred, 0);
        assert(found.contains(found[0]));
        rows.lemma_filter_contains_rev(pred, found[0]);
        let i = choose|i: int| 0 <= i < rows.len() && rows[i] == found[0];
        assert(rows[i].record_id() == id);
    }
}

proof fn lemma_filter_agree<T>(rows: Seq<T>, p: spec_fn(T) -> bool, q: spec_fn(T) -> bool)
    requires
        forall|i: int| 0 <= i < rows.len() ==> p(#[trigger] rows[i]) == q(rows[i]),
    ensures
        rows.filter(p) == rows.filter(q),
    decreases rows.len(),
{
    reveal(Seq::filter);
    if rows.len() > 0 {
        let init = rows.drop_last();
        assert forall|i: int| 0 <= i < init.len() implies p(#[trigger] init[i]) == q(init[i]) by {
            assert(init[i] == rows[i]);
        }
        lemma_filter_agree(init, p, q);
    }
}

proof fn lemma_unique_id_count<T: Record>(rows: Seq<T>, id: u128)
    requires
        ids_unique(rows),
    ensures
        affected_by_id(rows, id) == (if has_id(rows, id) {
            1nat
        } else {
            0nat
        }),
    decreases rows.len(),
{
    let pred = |r: T| set![id].contains(r.record_id());
    if rows.len() == 0 {
        reveal(Seq::filter);
    } else {
        let init = rows.drop_last();
        let last = rows.last();
        assert(rows == init.push(last));
        init.lemma_filter_push(last, pred);
        assert forall|i: int, j: int|
            0 <= i < init.len() && 0 <= j < init.len() && #[trigger] init[i].record_id()
                == #[trigger] init[j].record_id() implies i == j by {
            assert(init[i] == rows[i] && init[j] == rows[j]);
        }
        lemma_unique_id_count(init, id);
        if last.record_id() == id {
            if has_id(init, id) {
                let i = choose|i: int| 0 <= i < init.len() && #[trigger] init[i].record_id() == id;
                assert(rows[i].record_id() == rows[rows.len() - 1].record_id());
            }
            assert(has_id(rows, id)) by {
                assert(rows[rows.len() - 1].record_id() == id);
            }
        } else {
            if has_id(rows, id) {
                let i = choose|i: int| 0 <= i < rows.len() && #[trigger] rows[i].record_id() == id;
                assert(init[i].record_id() == id);
            }
            if has_id(init, id) {
                let i = choose|i: int| 0 <= i < init.len() && #[trigger] init[i].record_id() == id;
                assert(rows[i].record_id() == id);
            }
        }
    }
}

/// A lookup of an id that no row has is the not-found error.
pub proof fn missing_id_is_not_found<T: Record>(rows: Seq<T>, id: u128)
    requires
        !has_id(rows, id),
    ensures
        fetch_outcome(select_by_id(rows, id)) == Err::<T, RepositoryError>(
            RepositoryError::NotFound,
        ),
{
    lemma_no_row_selected(rows, id);
}

/// Once a row is inserted under a new id, a lookup of that id returns it.
pub proof fn inserted_row_is_found<T: Record>(rows: Seq<T>, row: T)
    requires
        !has_id(rows, row.record_id()),
    ensures
        fetch_outcome(select_by_id(rows.push(row), row.record_id())) == Ok::<T, RepositoryError>(
            row,
        ),
{
    let id = row.record_id();
    let pred = |r: T| set![id].contains(r.record_id());
    lemma_no_row_selected(rows, id);
    rows.lemma_filter_push(row, pred);
    assert(rows.push(row).filter(pred) == rows.filter(pred).push(row));
}

/// A created post, once inserted, reads back with every client-supplied field
/// as given and published.
pub proof fn created_post_reads_back(rows: Seq<Post>, input: CreatePost, created: Post)
    requires
        created.published,
        post_models::carries_create(created, input),
        !has_id(rows, created.id),
    ensures
        fetch_outcome(select_by_id(rows.push(created), created.id)) matches Ok(p) && p.published
            && post_models::carries_create(p, input),
{
    inserted_row_is_found(rows, created);
}

/// A created brand, once inserted, reads back with every client-supplied
/// field as given.
pub proof fn created_brand_reads_back(rows: Seq<Brand>, input: CreateBrand, created: Brand)
    requires
        brand_models::carries_create(created, input),
        !has_id(rows, created.id),
    ensures
        fetch_outcome(select_by_id(rows.push(created), created.id)) matches Ok(b)
            && brand_models::carries_create(b, input),
{
    inserted_row_is_found(rows, created);
}

/// An update or delete by id touches one row where the id exists and none
/// where it does not.
pub proof fn by_id_touches_at_most_one<T: Record>(rows: Seq<T>, id: u128)
    requires
        ids_unique(rows),
    ensures
        affected_by_id(rows, id) == (if has_id(rows, id) {
            1nat
        } else {
            0nat
        }),
{
    lemma_unique_id_count(rows, id);
}

/// Deleting two ids of which only the first exists removes exactly one row.
pub proof fn delete_of_one_present_id_counts_one<T: Record>(rows: Seq<T>, present: u128, absent: u128)
    requires
        ids_unique(rows),
        has_id(rows, present),
        !has_id(rows, absent),
    ensures
        affected_by_ids(rows, seq![present, absent]) == 1,
{
    let both = seq![present, absent].to_set();
    assert(both =~= set![present, absent]) by {
        assert(seq![present, absent][0] == present);
        assert(seq![present, absent][1] == absent);
    }
    let p = |r: T| both.contains(r.record_id());
    let q = |r: T| set![present].contains(r.record_id());
    assert forall|i: int| 0 <= i < rows.len() implies p(#[trigger] rows[i]) == q(rows[i]) by {
        if rows[i].record_id() == absent {
            assert(has_id(rows, absent));
        }
    }
    lemma_filter_agree(rows, p, q);
    lemma_unique_id_count(rows, present);
}

/// A post list request returns at most `MAX_LIMIT` rows, whatever limit it asked for.
pub proof fn post_list_is_capped(
    rows: Seq<Post>,
    offset: u32,
    limit: u32,
    sort_by: Seq<char>,
    sort_order: Seq<char>,
    filter_by: Seq<char>,
    filter_term: Seq<char>,
    q: PostQuery,
    out: Seq<Post>,
)
    requires
        plans_post_list(q, offset, limit, sort_by, sort_order, filter_by, filter_term),
        is_post_page(rows, q, out),
    ensures
        out.len() <= MAX_LIMIT,
{
}

/// A brand list request returns at most `MAX_LIMIT` rows, whatever limit it asked for.
pub proof fn brand_list_is_capped(
    rows: Seq<Brand>,
    offset: u32,
    limit: u32,
    sort_by: Seq<char>,
    sort_order: Seq<char>,
    filter_by: Seq<char>,
    filter_term: Seq<char>,
    q: BrandQuery,
    out: Seq<Brand>,
)
    requires
        plans_brand_list(q, offset, limit, sort_by, sort_order, filter_by, filter_term),
        is_brand_page(rows, q, out),
    ensures
        out.len() <= MAX_LIMIT,
{
}

} // verus!

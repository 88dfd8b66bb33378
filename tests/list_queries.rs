use marketplace_api::brand_columns::{BrandColumn, BrandNullableTextColumn, BrandTextColumn};
use marketplace_api::brand_service;
use marketplace_api::post_columns::{
    PostBigIntegerColumn, PostBoolColumn, PostColumn, PostIntegerColumn, PostTextColumn,
};
use marketplace_api::post_service::{list_query, post_filter, PostFilter, PostOrder};
use marketplace_api::query::{cap_limit, parse_sort_order, wants_filter, SortDirection};
use marketplace_api::repository::RepositoryError;

#[test]
fn limit_is_capped_at_one_hundred() {
    let q = list_query(0, 1000, "model", "asc", "", "").unwrap();
    assert_eq!(q.limit, 100);
    assert!(q.only_published);
    assert_eq!(cap_limit(1000), 100);
    assert_eq!(cap_limit(100), 100);
    assert_eq!(cap_limit(99), 99);
    assert_eq!(cap_limit(0), 0);
    assert_eq!(cap_limit(u32::MAX), 100);
}

#[test]
fn offset_is_kept() {
    let q = list_query(4_000_000, 5, "year", "desc", "", "").unwrap();
    assert_eq!(q.offset, 4_000_000);
    assert_eq!(q.limit, 5);
    assert_eq!(
        q.order,
        Some(PostOrder {
            column: PostColumn::Integer(PostIntegerColumn::Year),
            direction: SortDirection::Desc
        })
    );
    assert_eq!(q.filter, None);
}

#[test]
fn unknown_sort_field_falls_back_to_model() {
    let q = list_query(0, 10, "nonexistent_field", "asc", "", "").unwrap();
    assert_eq!(
        q.order,
        Some(PostOrder {
            column: PostColumn::Text(PostTextColumn::Model),
            direction: SortDirection::Asc
        })
    );
}

#[test]
fn unknown_sort_order_leaves_rows_unordered() {
    let q = list_query(0, 10, "price", "banana", "", "").unwrap();
    assert_eq!(q.order, None);
    assert_eq!(list_query(0, 10, "price", "ASC", "", "").unwrap().order, None);
    assert_eq!(list_query(0, 10, "price", "", "", "").unwrap().order, None);
    assert_eq!(parse_sort_order("asc"), Some(SortDirection::Asc));
    assert_eq!(parse_sort_order("desc"), Some(SortDirection::Desc));
    assert_eq!(parse_sort_order("Desc"), None);
}

#[test]
fn non_numeric_mileage_filter_fails() {
    let r = list_query(0, 10, "model", "asc", "mileage", "not_a_number");
    assert_eq!(
        r,
        Err(RepositoryError::InvalidFilter(String::from("invalid digit found in string")))
    );
    assert_eq!(r.unwrap_err().message(), "invalid digit found in string");
}

#[test]
fn out_of_range_year_filter_fails() {
    let r = list_query(0, 10, "model", "asc", "year", "2147483648");
    assert_eq!(
        r,
        Err(RepositoryError::InvalidFilter(String::from(
            "number too large to fit in target type"
        )))
    );
    let r = list_query(0, 10, "model", "asc", "armored", "yes");
    assert_eq!(
        r,
        Err(RepositoryError::InvalidFilter(String::from(
            "provided string was not `true` or `false`"
        )))
    );
    let q = list_query(0, 10, "model", "asc", "year", "-2147483648").unwrap();
    assert_eq!(q.filter, Some(PostFilter::Integer(PostIntegerColumn::Year, i32::MIN)));
}

#[test]
fn filters_are_read_as_the_column_type() {
    let q = list_query(0, 10, "model", "asc", "mileage", "12000").unwrap();
    assert_eq!(q.filter, Some(PostFilter::Integer(PostIntegerColumn::Mileage, 12000)));
    let q = list_query(0, 10, "model", "asc", "price", "+9000000000").unwrap();
    assert_eq!(q.filter, Some(PostFilter::BigInteger(PostBigIntegerColumn::Price, 9_000_000_000)));
    let q = list_query(0, 10, "model", "asc", "armored", "true").unwrap();
    assert_eq!(q.filter, Some(PostFilter::Bool(PostBoolColumn::Armored, true)));
    let q = list_query(0, 10, "model", "asc", "color", "red").unwrap();
    assert_eq!(q.filter, Some(PostFilter::Text(PostTextColumn::Color, String::from("red"))));
}

#[test]
fn unknown_filter_field_filters_on_model() {
    let q = list_query(0, 10, "model", "asc", "colour", "Civic").unwrap();
    assert_eq!(q.filter, Some(PostFilter::Text(PostTextColumn::Model, String::from("Civic"))));
}

#[test]
fn malformed_terms_do_not_read() {
    let mileage = PostColumn::Integer(PostIntegerColumn::Mileage);
    assert!(post_filter(mileage, " 12").is_err());
    assert!(post_filter(mileage, "1_000").is_err());
    assert!(post_filter(mileage, "-").is_err());
    assert!(post_filter(mileage, "+-1").is_err());
    assert_eq!(post_filter(mileage, "-7"), Ok(PostFilter::Integer(PostIntegerColumn::Mileage, -7)));
    let exchange = PostColumn::Bool(PostBoolColumn::Exchange);
    assert!(post_filter(exchange, "True").is_err());
    assert!(post_filter(exchange, "1").is_err());
    assert_eq!(post_filter(exchange, "false"), Ok(PostFilter::Bool(PostBoolColumn::Exchange, false)));
}

#[test]
fn filter_needs_field_and_term() {
    assert_eq!(list_query(0, 10, "model", "asc", "mileage", "").unwrap().filter, None);
    assert_eq!(list_query(0, 10, "model", "asc", "", "abc").unwrap().filter, None);
    assert!(!wants_filter("", ""));
    assert!(wants_filter("a", "b"));
}

#[test]
fn brand_list_query() {
    let q = brand_service::list_query(3, 500, "updated_by", "desc", "created_by", "admin");
    assert_eq!(q.offset, 3);
    assert_eq!(q.limit, 100);
    assert_eq!(
        q.order,
        Some(brand_service::BrandOrder {
            column: BrandColumn::NullableText(BrandNullableTextColumn::UpdatedBy),
            direction: SortDirection::Desc
        })
    );
    assert_eq!(
        q.filter,
        Some(brand_service::BrandFilter {
            column: BrandColumn::Text(BrandTextColumn::CreatedBy),
            term: String::from("admin")
        })
    );
    let q = brand_service::list_query(0, 10, "nonexistent_field", "banana", "", "");
    assert_eq!(q.order, None);
    assert_eq!(q.filter, None);
    let q = brand_service::list_query(0, 10, "nonexistent_field", "asc", "", "");
    assert_eq!(q.order.unwrap().column, BrandColumn::Text(BrandTextColumn::Name));
}

use marketplace_api::brand_controller;
use marketplace_api::config::{
    connection_timeout_secs, resolve_connection_timeout, ConnectionTimeout, TimeoutFallback,
};
use marketplace_api::post_controller::GetParams;
use marketplace_api::repository::{found, RecordKind, RepositoryError};
use marketplace_api::status::{
    error_body, get_status_code_for_count, mutation_status, status_for_error,
};

#[test]
fn missing_row_is_not_found() {
    let r: Result<u8, RepositoryError> = found(None);
    assert_eq!(r, Err(RepositoryError::NotFound));
    assert_eq!(found(Some(3u8)), Ok(3));
    assert_eq!(status_for_error(&RepositoryError::NotFound), 404);
}

#[test]
fn mutation_counts_map_to_status() {
    assert_eq!(get_status_code_for_count(0), 404);
    assert_eq!(get_status_code_for_count(1), 204);
    assert_eq!(get_status_code_for_count(2), 204);
    assert_eq!(mutation_status(&Ok(0)), 404);
    assert_eq!(mutation_status(&Ok(1)), 204);
    assert_eq!(mutation_status(&Err(RepositoryError::Database(String::from("down")))), 500);
}

#[test]
fn errors_other_than_not_found_are_internal() {
    assert_eq!(status_for_error(&RepositoryError::EmptyInput(RecordKind::Post)), 500);
    assert_eq!(status_for_error(&RepositoryError::InvalidFilter(String::from("x"))), 500);
    assert_eq!(status_for_error(&RepositoryError::Database(String::from("x"))), 500);
}

#[test]
fn error_messages() {
    assert_eq!(RepositoryError::NotFound.message(), "Record not found");
    assert_eq!(RepositoryError::EmptyInput(RecordKind::Post).message(), "No posts to create");
    assert_eq!(RepositoryError::EmptyInput(RecordKind::Brand).message(), "No brands to create");
    assert_eq!(
        RepositoryError::InvalidFilter(String::from("invalid digit found in string")).message(),
        "invalid digit found in string"
    );
    assert_eq!(RepositoryError::Database(String::from("boom")).message(), "boom");
}

#[test]
fn error_bodies() {
    assert_eq!(error_body(&RepositoryError::NotFound), "");
    assert_eq!(error_body(&RepositoryError::EmptyInput(RecordKind::Post)), "No posts to create");
    assert_eq!(error_body(&RepositoryError::EmptyInput(RecordKind::Brand)), "No brands to create");
    assert_eq!(error_body(&RepositoryError::Database(String::from("down"))), "down");
}

#[test]
fn post_params_defaults() {
    let p = GetParams {
        offset: None,
        limit: None,
        sort_by: None,
        sort_order: None,
        filter_by: None,
        filter_term: None,
    }
    .resolve();
    assert_eq!(p.offset, 0);
    assert_eq!(p.limit, 10);
    assert_eq!(p.sort_by, "model");
    assert_eq!(p.sort_order, "asc");
    assert_eq!(p.filter_by, "");
    assert_eq!(p.filter_term, "");
}

#[test]
fn post_params_given() {
    let p = GetParams {
        offset: Some(20),
        limit: Some(1000),
        sort_by: Some(String::from("price")),
        sort_order: Some(String::from("desc")),
        filter_by: Some(String::from("year")),
        filter_term: Some(String::from("2020")),
    }
    .resolve();
    assert_eq!(p.offset, 20);
    assert_eq!(p.limit, 100);
    assert_eq!(p.sort_by, "price");
    assert_eq!(p.sort_order, "desc");
    assert_eq!(p.filter_by, "year");
    assert_eq!(p.filter_term, "2020");
}

#[test]
fn brand_params_default_to_name() {
    let p = brand_controller::GetParams {
        offset: None,
        limit: Some(7),
        sort_by: None,
        sort_order: None,
        filter_by: None,
        filter_term: None,
    }
    .resolve();
    assert_eq!(p.limit, 7);
    assert_eq!(p.sort_by, "name");
}

#[test]
fn no_timeout_on_env() {
    assert_eq!(connection_timeout_secs(None), 30);
}

#[test]
fn invalid_timeout_on_env() {
    assert_eq!(connection_timeout_secs(Some("F")), 30);
}

#[test]
fn valid_timeout_on_env() {
    assert_eq!(connection_timeout_secs(Some("10")), 10);
}

#[test]
fn timeout_edge_values() {
    assert_eq!(connection_timeout_secs(Some("+5")), 5);
    assert_eq!(connection_timeout_secs(Some("-5")), 30);
    assert_eq!(connection_timeout_secs(Some("")), 30);
    assert_eq!(connection_timeout_secs(Some("18446744073709551615")), u64::MAX);
    assert_eq!(connection_timeout_secs(Some("18446744073709551616")), 30);
}

#[test]
fn timeout_fallback_reasons() {
    assert_eq!(
        resolve_connection_timeout(None),
        ConnectionTimeout { secs: 30, fallback: Some(TimeoutFallback::Missing) }
    );
    assert_eq!(
        resolve_connection_timeout(Some("F")),
        ConnectionTimeout {
            secs: 30,
            fallback: Some(TimeoutFallback::Unparsable(String::from("invalid digit found in string")))
        }
    );
    assert_eq!(
        resolve_connection_timeout(Some("10")),
        ConnectionTimeout { secs: 10, fallback: None }
    );
}

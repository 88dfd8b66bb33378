//! The HTTP status codes that repository outcomes map to.
use vstd::prelude::*;

use crate::repository::{error_text, RepositoryError};

verus! {

pub const OK: u16 = 200;

pub const CREATED: u16 = 201;

pub const NO_CONTENT: u16 = 204;

pub const NOT_FOUND: u16 = 404;

pub const INTERNAL_SERVER_ERROR: u16 = 500;

/// The status of a mutation that touched `count` rows: none is not-found.
pub fn get_status_code_for_count(count: usize) -> (r: u16)
    ensures
        r == (if count > 0 {
            NO_CONTENT
        } else {
            NOT_FOUND
        }),
{
    if count > 0 {
        NO_CONTENT
    } else {
        NOT_FOUND
    }
}

/// The status of a failed operation: not-found is 404, every other error 500.
pub fn status_for_error(e: &RepositoryError) -> (r: u16)
    ensures
        r == (if e is NotFound {
            NOT_FOUND
        } else {
            INTERNAL_SERVER_ERROR
        }),
{
    match e {
        RepositoryError::NotFound => NOT_FOUND,
        _ => INTERNAL_SERVER_ERROR,
    }
}

/// The status of an update or a delete, given the count it reported or its error.
pub fn mutation_status(outcome: &Result<usize, RepositoryError>) -> (r: u16)
    ensures
        outcome matches Ok(n) ==> r == (if n > 0 {
            NO_CONTENT
        } else {
            NOT_FOUND
        }),
        outcome matches Err(e) ==> r == (if e is NotFound {
            NOT_FOUND
        } else {
            INTERNAL_SERVER_ERROR
        }),
{
    match outcome {
        Ok(n) => get_status_code_for_count(*n),
        Err(e) => status_for_error(e),
    }
}

} // verus!

verus! {

/// The body of an error response: empty for not-found, the error's text otherwise.
pub fn error_body(e: &RepositoryError) -> (r: String)
    ensures
        e is NotFound ==> r@ == Seq::<char>::empty(),
        !(e is NotFound) ==> r@ == error_text(*e),
{
    match e {
        RepositoryError::NotFound => String::new(),
        _ => e.message(),
    }
}

} // verus!

//! Outcomes of the statements a repository issues, and their errors.
use vstd::prelude::*;

verus! {

/// The kind of record an operation is about.
#[derive(Clone, Copy, Debug, PartialEq, Eq, Structural, Hash)]
pub enum RecordKind {
    Post,
    Brand,
}

/// Why a repository operation failed.
#[derive(Debug, PartialEq, Eq)]
pub enum RepositoryError {
    /// No row has the requested id.
    NotFound,
    /// A bulk create was given no records of this kind.
    EmptyInput(RecordKind),
    /// A filter term could not be read as the filtered column's type; the
    /// text is the parser's own message.
    InvalidFilter(String),
    /// The database refused or failed the statement; the text is its message.
    Database(String),
}

/// The text reported for an error.
pub open spec fn error_text(e: RepositoryError) -> Seq<char> {
    match e {
        RepositoryError::NotFound => "Record not found"@,
        RepositoryError::EmptyInput(RecordKind::Post) => "No posts to create"@,
        RepositoryError::EmptyInput(RecordKind::Brand) => "No brands to create"@,
        RepositoryError::InvalidFilter(t) => t@,
        RepositoryError::Database(m) => m@,
    }
}

/// What a lookup by id yields, given the row the database returned, if any.
pub open spec fn fetch_outcome<T>(row: Option<T>) -> Result<T, RepositoryError> {
    match row {
        Some(r) => Ok(r),
        None => Err(RepositoryError::NotFound),
    }
}

/// Turns the row a lookup by id returned, if any, into its outcome: no row
/// is the not-found error.
pub fn found<T>(row: Option<T>) -> (r: Result<T, RepositoryError>)
    ensures
        r == fetch_outcome(row),
{
    match row {
        Some(x) => Ok(x),
        None => Err(RepositoryError::NotFound),
    }
}

impl RepositoryError {
    /// The text reported for this error.
    pub fn message(&self) -> (r: String)
        ensures
            r@ == error_text(*self),
    {
        match self {
            RepositoryError::NotFound => String::from_str("Record not found"),
            RepositoryError::EmptyInput(RecordKind::Post) => String::from_str("No posts to create"),
            RepositoryError::EmptyInput(RecordKind::Brand) => String::from_str(
                "No brands to create",
            ),
            RepositoryError::InvalidFilter(t) => t.clone(),
            RepositoryError::Database(m) => m.clone(),
        }
    }
}

} // verus!

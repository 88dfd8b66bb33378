//! The columns of the post table that a client may sort or filter by.
use vstd::prelude::*;

use crate::text::text_eq;

verus! {

/// A text column of the post table.
#[derive(Clone, Copy, Debug, PartialEq, Eq, Structural, Hash)]
pub enum PostTextColumn {
    Brand,
    Model,
    Version,
    Engine,
    Transmission,
    Color,
    Body,
    ThumbnailUrl,
    Author,
}

/// A 32-bit integer column of the post table.
#[derive(Clone, Copy, Debug, PartialEq, Eq, Structural, Hash)]
pub enum PostIntegerColumn {
    Year,
    Mileage,
}

/// A boolean column of the post table.
#[derive(Clone, Copy, Debug, PartialEq, Eq, Structural, Hash)]
pub enum PostBoolColumn {
    Armored,
    Exchange,
    Published,
}

/// A 64-bit integer column of the post table.
#[derive(Clone, Copy, Debug, PartialEq, Eq, Structural, Hash)]
pub enum PostBigIntegerColumn {
    Price,
}

/// A column of the post table, tagged with the scalar kind of its values.
#[derive(Clone, Copy, Debug, PartialEq, Eq, Structural, Hash)]
pub enum PostColumn {
    Integer(PostIntegerColumn),
    Text(PostTextColumn),
    Bool(PostBoolColumn),
    BigInteger(PostBigIntegerColumn),
}

/// The column that an unknown field name falls back to.
pub open spec fn default_post_column() -> PostColumn {
    PostColumn::Text(PostTextColumn::Model)
}

/// The column that a client-supplied field name stands for.
pub open spec fn post_column_named(name: Seq<char>) -> PostColumn {
    if name == "brand"@ {
        PostColumn::Text(PostTextColumn::Brand)
    } else if name == "model"@ {
        PostColumn::Text(PostTextColumn::Model)
    } else if name == "version"@ {
        PostColumn::Text(PostTextColumn::Version)
    } else if name == "engine"@ {
        PostColumn::Text(PostTextColumn::Engine)
    } else if name == "transmission"@ {
        PostColumn::Text(PostTextColumn::Transmission)
    } else if name == "year"@ {
        PostColumn::Integer(PostIntegerColumn::Year)
    } else if name == "mileage"@ {
        PostColumn::Integer(PostIntegerColumn::Mileage)
    } else if name == "color"@ {
        PostColumn::Text(PostTextColumn::Color)
    } else if name == "body"@ {
        PostColumn::Text(PostTextColumn::Body)
    } else if name == "armored"@ {
        PostColumn::Bool(PostBoolColumn::Armored)
    } else if name == "exchange"@ {
        PostColumn::Bool(PostBoolColumn::Exchange)
    } else if name == "price"@ {
        PostColumn::BigInteger(PostBigIntegerColumn::Price)
    } else if name == "thumbnail_url"@ {
        PostColumn::Text(PostTextColumn::ThumbnailUrl)
    } else if name == "author"@ {
        PostColumn::Text(PostTextColumn::Author)
    } else if name == "published"@ {
        PostColumn::Bool(PostBoolColumn::Published)
    } else {
        default_post_column()
    }
}

/// Whether `name` is one of the post table's queryable field names.
pub open spec fn is_post_field(name: Seq<char>) -> bool {
    name == "brand"@ || name == "model"@ || name == "version"@ || name == "engine"@
        || name == "transmission"@ || name == "year"@ || name == "mileage"@ || name == "color"@
        || name == "body"@ || name == "armored"@ || name == "exchange"@ || name == "price"@
        || name == "thumbnail_url"@ || name == "author"@ || name == "published"@
}

/// Resolves a client-supplied field name to a post column. An unknown name
/// is not an error: it resolves to the `model` column.
pub fn get_column(name: &str) -> (r: PostColumn)
    ensures
        r == post_column_named(name@),
        !is_post_field(name@) ==> r == default_post_column(),
{
    if text_eq(name, "brand") {
        PostColumn::Text(PostTextColumn::Brand)
    } else if text_eq(name, "model") {
        PostColumn::Text(PostTextColumn::Model)
    } else if text_eq(name, "version") {
        PostColumn::Text(PostTextColumn::Version)
    } else if text_eq(name, "engine") {
        PostColumn::Text(PostTextColumn::Engine)
    } else if text_eq(name, "transmission") {
        PostColumn::Text(PostTextColumn::Transmission)
    } else if text_eq(name, "year") {
        PostColumn::Integer(PostIntegerColumn::Year)
    } else if text_eq(name, "mileage") {
        PostColumn::Integer(PostIntegerColumn::Mileage)
    } else if text_eq(name, "color") {
        PostColumn::Text(PostTextColumn::Color)
    } else if text_eq(name, "body") {
        PostColumn::Text(PostTextColumn::Body)
    } else if text_eq(name, "armored") {
        PostColumn::Bool(PostBoolColumn::Armored)
    } else if text_eq(name, "exchange") {
        PostColumn::Bool(PostBoolColumn::Exchange)
    } else if text_eq(name, "price") {
        PostColumn::BigInteger(PostBigIntegerColumn::Price)
    } else if text_eq(name, "thumbnail_url") {
        PostColumn::Text(PostTextColumn::ThumbnailUrl)
    } else if text_eq(name, "author") {
        PostColumn::Text(PostTextColumn::Author)
    } else if text_eq(name, "published") {
        PostColumn::Bool(PostBoolColumn::Published)
    } else {
        PostColumn::Text(PostTextColumn::Model)
    }
}

} // verus!

//! The columns of the brand table that a client may sort or filter by.
use vstd::prelude::*;

use crate::text::text_eq;

verus! {

/// A non-null text column of the brand table.
#[derive(Clone, Copy, Debug, PartialEq, Eq, Structural, Hash)]
pub enum BrandTextColumn {
    Name,
    CreatedBy,
}

/// A nullable text column of the brand table.
#[derive(Clone, Copy, Debug, PartialEq, Eq, Structural, Hash)]
pub enum BrandNullableTextColumn {
    UpdatedBy,
}

/// A column of the brand table, tagged with the kind of its values.
#[derive(Clone, Copy, Debug, PartialEq, Eq, Structural, Hash)]
pub enum BrandColumn {
    Text(BrandTextColumn),
    NullableText(BrandNullableTextColumn),
}

/// The column that an unknown field name falls back to.
pub open spec fn default_brand_column() -> BrandColumn {
    BrandColumn::Text(BrandTextColumn::Name)
}

/// The column that a client-supplied field name stands for.
pub open spec fn brand_column_named(name: Seq<char>) -> BrandColumn {
    if name == "name"@ {
        BrandColumn::Text(BrandTextColumn::Name)
    } else if name == "created_by"@ {
        BrandColumn::Text(BrandTextColumn::CreatedBy)
    } else if name == "updated_by"@ {
        BrandColumn::NullableText(BrandNullableTextColumn::UpdatedBy)
    } else {
        default_brand_column()
    }
}

/// Resolves a client-supplied field name to a brand column. An unknown name
/// is not an error: it resolves to the `name` column.
pub fn get_column(name: &str) -> (r: BrandColumn)
    ensures
        r == brand_column_named(name@),
        !(name@ == "name"@ || name@ == "created_by"@ || name@ == "updated_by"@) ==> r
            == default_brand_column(),
{
    if text_eq(name, "name") {
        BrandColumn::Text(BrandTextColumn::Name)
    } else if text_eq(name, "created_by") {
        BrandColumn::Text(BrandTextColumn::CreatedBy)
    } else if text_eq(name, "updated_by") {
        BrandColumn::NullableText(BrandNullableTextColumn::UpdatedBy)
    } else {
        BrandColumn::Text(BrandTextColumn::Name)
    }
}

} // verus!

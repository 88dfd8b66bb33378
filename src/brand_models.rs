//! The brand record and the bodies that create or replace one.
use vstd::prelude::*;

verus! {

/// A brand as stored. `id` is the UUID as its 128-bit value; the timestamps
/// are microseconds since the Unix epoch, UTC.
#[derive(Clone, Debug, PartialEq, Eq)]
pub struct Brand {
    pub id: u128,
    pub name: String,
    pub image_url: String,
    pub thumbnail_url: String,
    pub created_at: i64,
    pub updated_at: Option<i64>,
    pub deleted_at: Option<i64>,
    pub created_by: String,
    pub updated_by: Option<String>,
    pub deleted_by: Option<String>,
}

/// The fields a client supplies to create a brand.
#[derive(Clone, Debug, PartialEq, Eq)]
pub struct CreateBrand {
    pub name: String,
    pub image_url: String,
    pub thumbnail_url: String,
}

/// The fields a client supplies to replace a brand's contents.
#[derive(Clone, Debug, PartialEq, Eq)]
pub struct UpdateBrand {
    pub name: String,
    pub image_url: String,
    pub thumbnail_url: String,
}

/// The columns an update of a brand writes: the client's fields and the audit pair.
#[derive(Clone, Debug, PartialEq, Eq)]
pub struct BrandChanges {
    pub name: String,
    pub image_url: String,
    pub thumbnail_url: String,
    pub updated_at: i64,
    pub updated_by: String,
}

/// Every client-supplied field of `input` stands unchanged in `b`.
pub open spec fn carries_create(b: Brand, input: CreateBrand) -> bool {
    &&& b.name@ == input.name@
    &&& b.image_url@ == input.image_url@
    &&& b.thumbnail_url@ == input.thumbnail_url@
}

/// The actor recorded in the audit columns.
pub open spec fn audit_actor() -> Seq<char> {
    "admin"@
}

} // verus!

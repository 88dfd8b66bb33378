//! The post record and the bodies that create or replace one.
use vstd::prelude::*;

verus! {

/// A post (a vehicle listing) as stored. `id` is the UUID as its 128-bit value.
#[derive(Clone, Debug, PartialEq, Eq)]
pub struct Post {
    pub id: u128,
    pub brand: String,
    pub model: String,
    pub version: String,
    pub engine: String,
    pub transmission: String,
    pub year: i32,
    pub mileage: i32,
    pub color: String,
    pub body: String,
    pub armored: bool,
    pub exchange: bool,
    pub price: i64,
    pub thumbnail_url: String,
    pub author: String,
    pub published: bool,
}

/// The fields a client supplies to create a post: no id, no publication flag.
#[derive(Clone, Debug, PartialEq, Eq)]
pub struct CreatePost {
    pub brand: String,
    pub model: String,
    pub version: String,
    pub engine: String,
    pub transmission: String,
    pub year: i32,
    pub mileage: i32,
    pub color: String,
    pub body: String,
    pub armored: bool,
    pub exchange: bool,
    pub price: i64,
    pub thumbnail_url: String,
    pub author: String,
}

/// The fields a client supplies to replace a post's contents.
#[derive(Clone, Debug, PartialEq, Eq)]
pub struct UpdatePost {
    pub brand: String,
    pub model: String,
    pub version: String,
    pub engine: String,
    pub transmission: String,
    pub year: i32,
    pub mileage: i32,
    pub color: String,
    pub body: String,
    pub armored: bool,
    pub exchange: bool,
    pub price: i64,
    pub thumbnail_url: String,
    pub author: String,
    pub published: bool,
}

/// Every client-supplied field of `input` stands unchanged in `p`.
pub open spec fn carries_create(p: Post, input: CreatePost) -> bool {
    &&& p.brand@ == input.brand@
    &&& p.model@ == input.model@
    &&& p.version@ == input.version@
    &&& p.engine@ == input.engine@
    &&& p.transmission@ == input.transmission@
    &&& p.year == input.year
    &&& p.mileage == input.mileage
    &&& p.color@ == input.color@
    &&& p.body@ == input.body@
    &&& p.armored == input.armored
    &&& p.exchange == input.exchange
    &&& p.price == input.price
    &&& p.thumbnail_url@ == input.thumbnail_url@
    &&& p.author@ == input.author@
}

/// Every field of `input` stands unchanged in `p`, the publication flag included.
pub open spec fn carries_update(p: Post, input: UpdatePost) -> bool {
    &&& p.brand@ == input.brand@
    &&& p.model@ == input.model@
    &&& p.version@ == input.version@
    &&& p.engine@ == input.engine@
    &&& p.transmission@ == input.transmission@
    &&& p.year == input.year
    &&& p.mileage == input.mileage
    &&& p.color@ == input.color@
    &&& p.body@ == input.body@
    &&& p.armored == input.armored
    &&& p.exchange == input.exchange
    &&& p.price == input.price
    &&& p.thumbnail_url@ == input.thumbnail_url@
    &&& p.author@ == input.author@
    &&& p.published == input.published
}

} // verus!

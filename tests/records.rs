use marketplace_api::brand_models::{CreateBrand, UpdateBrand};
use marketplace_api::brand_service::{
    brand_changes, brand_from_input, changes_now, new_brand, new_brands,
};
use marketplace_api::post_models::{CreatePost, UpdatePost};
use marketplace_api::post_service::{new_post, new_posts, post_changes, post_from_input};
use marketplace_api::repository::{RecordKind, RepositoryError};

fn civic() -> CreatePost {
    CreatePost {
        brand: String::from("Honda"),
        model: String::from("Civic"),
        version: String::from("EXL"),
        engine: String::from("2.0"),
        transmission: String::from("CVT"),
        year: 2021,
        mileage: 32000,
        color: String::from("grey"),
        body: String::from("sedan"),
        armored: false,
        exchange: true,
        price: 12_990_000,
        thumbnail_url: String::from("https://img.example/civic.png"),
        author: String::from("joana"),
    }
}

fn version_of(id: u128) -> u128 {
    (id >> 76) & 0xf
}

fn variant_of(id: u128) -> u128 {
    (id >> 62) & 0x3
}

#[test]
fn created_post_is_published_with_input_fields() {
    let p = new_post(civic());
    assert!(p.published);
    assert_eq!(p.brand, "Honda");
    assert_eq!(p.model, "Civic");
    assert_eq!(p.version, "EXL");
    assert_eq!(p.engine, "2.0");
    assert_eq!(p.transmission, "CVT");
    assert_eq!(p.year, 2021);
    assert_eq!(p.mileage, 32000);
    assert_eq!(p.color, "grey");
    assert_eq!(p.body, "sedan");
    assert!(!p.armored);
    assert!(p.exchange);
    assert_eq!(p.price, 12_990_000);
    assert_eq!(p.thumbnail_url, "https://img.example/civic.png");
    assert_eq!(p.author, "joana");
}

#[test]
fn created_post_gets_a_random_uuid() {
    let a = new_post(civic());
    let b = new_post(civic());
    assert_eq!(version_of(a.id), 4);
    assert_eq!(variant_of(a.id), 2);
    assert_ne!(a.id, b.id);
}

#[test]
fn post_from_input_keeps_the_given_id() {
    let p = post_from_input(7, &civic());
    assert_eq!(p.id, 7);
    assert!(p.published);
    assert_eq!(p.model, "Civic");
}

#[test]
fn bulk_create_of_nothing_fails() {
    let r = new_posts(Vec::new());
    assert_eq!(r, Err(RepositoryError::EmptyInput(RecordKind::Post)));
    assert_eq!(r.unwrap_err().message(), "No posts to create");
    let r = new_brands(Vec::new());
    assert_eq!(r, Err(RepositoryError::EmptyInput(RecordKind::Brand)));
    assert_eq!(r.unwrap_err().message(), "No brands to create");
}

#[test]
fn bulk_create_keeps_input_order() {
    let mut second = civic();
    second.model = String::from("Fit");
    let rows = new_posts(vec![civic(), second]).unwrap();
    assert_eq!(rows.len(), 2);
    assert_eq!(rows[0].model, "Civic");
    assert_eq!(rows[1].model, "Fit");
    assert!(rows[0].published && rows[1].published);
    assert_ne!(rows[0].id, rows[1].id);
    assert_eq!(version_of(rows[1].id), 4);
}

#[test]
fn update_writes_every_field() {
    let u = UpdatePost {
        brand: String::from("Fiat"),
        model: String::from("Uno"),
        version: String::from("Mille"),
        engine: String::from("1.0"),
        transmission: String::from("manual"),
        year: 1999,
        mileage: 250000,
        color: String::from("white"),
        body: String::from("hatch"),
        armored: false,
        exchange: false,
        price: 800_000,
        thumbnail_url: String::from(""),
        author: String::from("rui"),
        published: false,
    };
    let p = post_changes(42, u);
    assert_eq!(p.id, 42);
    assert_eq!(p.model, "Uno");
    assert_eq!(p.year, 1999);
    assert!(!p.published);
}

fn audi() -> CreateBrand {
    CreateBrand {
        name: String::from("Audi"),
        image_url: String::from("https://img.example/audi.png"),
        thumbnail_url: String::from("https://img.example/audi_t.png"),
    }
}

#[test]
fn created_brand_is_audited_as_admin() {
    let b = brand_from_input(9, 1_700_000_000_000_000, &audi());
    assert_eq!(b.id, 9);
    assert_eq!(b.name, "Audi");
    assert_eq!(b.image_url, "https://img.example/audi.png");
    assert_eq!(b.thumbnail_url, "https://img.example/audi_t.png");
    assert_eq!(b.created_at, 1_700_000_000_000_000);
    assert_eq!(b.created_by, "admin");
    assert_eq!(b.updated_at, None);
    assert_eq!(b.deleted_at, None);
    assert_eq!(b.updated_by, None);
    assert_eq!(b.deleted_by, None);
}

#[test]
fn new_brand_gets_id_and_time() {
    let b = new_brand(audi());
    assert_eq!(version_of(b.id), 4);
    assert!(b.created_at > 1_600_000_000_000_000);
    assert_eq!(b.created_by, "admin");
}

#[test]
fn bulk_brands_share_one_timestamp() {
    let rows = new_brands(vec![audi(), audi(), audi()]).unwrap();
    assert_eq!(rows.len(), 3);
    assert_eq!(rows[0].created_at, rows[2].created_at);
    assert_ne!(rows[0].id, rows[1].id);
}

#[test]
fn brand_update_records_actor() {
    let u = UpdateBrand {
        name: String::from("VW"),
        image_url: String::from("i"),
        thumbnail_url: String::from("t"),
    };
    let c = brand_changes(u.clone(), 55);
    assert_eq!(c.name, "VW");
    assert_eq!(c.updated_at, 55);
    assert_eq!(c.updated_by, "admin");
    let c = changes_now(u);
    assert!(c.updated_at > 1_600_000_000_000_000);
    assert_eq!(c.updated_by, "admin");
}

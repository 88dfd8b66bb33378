//! Query planning and record construction for a vehicle-marketplace CRUD service.
//!
//! The library decides everything that a request handler and a repository
//! decide: which column a client-supplied field name stands for, how a list
//! request becomes one parameterised query, which row a create or an update
//! writes, and how a statement's outcome maps to a result and a status code.
//! Running statements against the database is left to the caller.
//!
//! `table` states what each of those statements means over a table modelled
//! as the sequence of its rows, and proves the laws the operations obey: a
//! lookup of an absent id is not-found, an inserted row reads back, a by-id
//! mutation touches at most one row, and a list returns at most `MAX_LIMIT`.
pub mod text;
pub mod post_columns;
pub mod brand_columns;
pub mod post_models;
pub mod brand_models;
pub mod repository;
pub mod generate;
pub mod query;
pub mod post_service;
pub mod brand_service;
pub mod post_controller;
pub mod brand_controller;
pub mod status;
pub mod config;
pub mod table;

//! A private crate registry: the rules of its storage back end, its mirror
//! cache, its release resolver and its router, as verified functions on plain
//! values.

pub mod db_manager;
pub mod error;
pub mod get;
pub mod index;
pub mod json;
pub mod mirror;
pub mod models;
pub mod release;
pub mod text;
pub mod version;

pub use db_manager::NoDbManager;

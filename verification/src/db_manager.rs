//! Storage back ends. The only one here is the one that stores nothing.

pub mod no_db_manager;

pub use no_db_manager::NoDbManager;

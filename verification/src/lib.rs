//! Feature-toggle catalog: a nested catalog of categories, products, services
//! and system features, its flat row representation, and the operations that
//! replace the catalog, read it back and toggle single features.

pub mod catalog;
pub mod clock;
pub mod config;
pub mod envelope;
pub mod flatten;
pub mod grouping;
pub mod isolation;
pub mod kind;
pub mod models;
pub mod reconstruct;
pub mod round_trip;
pub mod seq_facts;
pub mod service;
pub mod store;
pub mod toggle;

pub use store::create_feature;
